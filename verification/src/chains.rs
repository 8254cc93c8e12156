use vstd::prelude::*;
use vstd::string::StrSliceExecFns;
use vstd::string::StringExecFns;

verus! {

/// The chains the listener knows by id: the environment variable that names
/// the RPC endpoint, and the chain's display name.
pub open spec fn spec_chain_config(chain_id: u64) -> Option<(Seq<char>, Seq<char>)> {
    if chain_id == 1 {
        Some(("ETHEREUM_RPC_URL"@, "Ethereum Mainnet"@))
    } else if chain_id == 137 {
        Some(("POLYGON_RPC_URL"@, "Polygon"@))
    } else if chain_id == 42161 {
        Some(("ARBITRUM_RPC_URL"@, "Arbitrum One"@))
    } else if chain_id == 8453 {
        Some(("BASE_RPC_URL"@, "Base"@))
    } else if chain_id == 56 {
        Some(("BSC_RPC_URL"@, "Binance Smart Chain"@))
    } else if chain_id == 10 {
        Some(("OPTIMISM_RPC_URL"@, "Optimism"@))
    } else if chain_id == 43114 {
        Some(("AVALANCHE_RPC_URL"@, "Avalanche C-Chain"@))
    } else if chain_id == 250 {
        Some(("FANTOM_RPC_URL"@, "Fantom"@))
    } else if chain_id == 11155111 {
        Some(("SEPOLIA_RPC_URL"@, "Sepolia Testnet"@))
    } else if chain_id == 80001 {
        Some(("MUMBAI_RPC_URL"@, "Mumbai Testnet"@))
    } else {
        None
    }
}

/// Map a chain id to the environment variable holding its RPC endpoint URL
/// and its display name; `None` for a chain the listener does not know.
/// Reading the variable itself is the caller's affair.
pub fn chain_config(chain_id: u64) -> (r: Option<(&'static str, &'static str)>)
    ensures
        match r {
            Some(p) => spec_chain_config(chain_id) == Some((p.0@, p.1@)),
            None => spec_chain_config(chain_id) is None,
        },
{
    if chain_id == 1 {
        Some(("ETHEREUM_RPC_URL", "Ethereum Mainnet"))
    } else if chain_id == 137 {
        Some(("POLYGON_RPC_URL", "Polygon"))
    } else if chain_id == 42161 {
        Some(("ARBITRUM_RPC_URL", "Arbitrum One"))
    } else if chain_id == 8453 {
        Some(("BASE_RPC_URL", "Base"))
    } else if chain_id == 56 {
        Some(("BSC_RPC_URL", "Binance Smart Chain"))
    } else if chain_id == 10 {
        Some(("OPTIMISM_RPC_URL", "Optimism"))
    } else if chain_id == 43114 {
        Some(("AVALANCHE_RPC_URL", "Avalanche C-Chain"))
    } else if chain_id == 250 {
        Some(("FANTOM_RPC_URL", "Fantom"))
    } else if chain_id == 11155111 {
        Some(("SEPOLIA_RPC_URL", "Sepolia Testnet"))
    } else if chain_id == 80001 {
        Some(("MUMBAI_RPC_URL", "Mumbai Testnet"))
    } else {
        None
    }
}

/// The position of the last occurrence of `c` in `s`, or `-1` when there is
/// none.
pub open spec fn last_index_of(s: Seq<char>, c: char) -> int
    decreases s.len(),
{
    if s.len() == 0 {
        -1
    } else if s.last() == c {
        s.len() - 1
    } else {
        last_index_of(s.drop_last(), c)
    }
}

proof fn lemma_last_index_found(s: Seq<char>, c: char, i: int)
    requires
        0 <= i < s.len(),
        s[i] == c,
        forall|k: int| i < k < s.len() ==> s[k] != c,
    ensures
        last_index_of(s, c) == i,
    decreases s.len(),
{
    if i < s.len() - 1 {
        lemma_last_index_found(s.drop_last(), c, i);
    }
}

proof fn lemma_last_index_none(s: Seq<char>, c: char)
    requires
        forall|k: int| 0 <= k < s.len() ==> s[k] != c,
    ensures
        last_index_of(s, c) == -1,
    decreases s.len(),
{
    if s.len() > 0 {
        lemma_last_index_none(s.drop_last(), c);
    }
}

/// A URL with its trailing path segment masked for display: when the text
/// after the last `/` is longer than eight characters, only its first and
/// last four characters are kept around an ellipsis; any other URL is shown
/// unchanged.
pub open spec fn spec_mask(url: Seq<char>) -> Seq<char> {
    let p = last_index_of(url, '/');
    if p >= 0 && p + 1 < url.len() && url.len() - (p + 1) > 8 {
        url.take(p + 1) + url.subrange(p + 1, p + 5) + "..."@ + url.subrange(
            url.len() - 4,
            url.len() as int,
        )
    } else {
        url
    }
}

/// Mask a likely API key in an RPC URL before it is shown to the operator.
pub fn mask_api_key(url: &str) -> (r: String)
    ensures
        r@ == spec_mask(url@),
{
    let n = url.unicode_len();
    let mut slash: Option<usize> = None;
    let mut i: usize = 0;
    while i < n
        invariant
            n == url@.len(),
            i <= n,
            match slash {
                Some(p) => p < i && url@[p as int] == '/' && forall|k: int|
                    p < k < i ==> url@[k] != '/',
                None => forall|k: int| 0 <= k < i ==> url@[k] != '/',
            },
        decreases n - i,
    {
        if url.get_char(i) == '/' {
            slash = Some(i);
        }
        i += 1;
    }
    match slash {
        Some(p) => {
            proof {
                lemma_last_index_found(url@, '/', p as int);
            }
            if p + 1 < n && n - (p + 1) > 8 {
                let base = url.substring_char(0, p + 1);
                let key4 = url.substring_char(p + 1, p + 5);
                let tail = url.substring_char(n - 4, n);
                let mut out = String::from_str(base);
                out.append(key4);
                out.append("...");
                out.append(tail);
                proof {
                    assert(out@ =~= spec_mask(url@));
                }
                out
            } else {
                String::from_str(url)
            }
        },
        None => {
            proof {
                lemma_last_index_none(url@, '/');
            }
            String::from_str(url)
        },
    }
}

} // verus!
