use vstd::prelude::*;
use vstd::slice::slice_to_vec;
use vstd::string::StringSliceAdditionalSpecFns;
use vstd::utf8::encode_utf8;

verus! {

/// The Keccak-256 digest of a byte sequence: a function of the input bytes
/// alone, the same in every process and on every machine.
pub uninterp spec fn keccak_of(bytes: Seq<u8>) -> Seq<u8>;

/// Relies on ethers_core::utils::keccak256: the Keccak-256 digest of the
/// input bytes, always 32 bytes, depending on the input alone.
#[verifier::external_body]
fn keccak256_digest(bytes: &[u8]) -> (r: Vec<u8>)
    ensures
        r@ == keccak_of(bytes@),
        r@.len() == 32,
{
    ethers_core::utils::keccak256(bytes).to_vec()
}

/// The 32-byte topic-0 value an event signature string selects: the
/// Keccak-256 digest of the signature's UTF-8 bytes.  The signature text is
/// accepted as an opaque string; no validation happens at this layer.
pub fn compute_event_topic(event_sig: &str) -> (r: Vec<u8>)
    ensures
        r@ == keccak_of(event_sig.spec_bytes()),
        r@.len() == 32,
{
    keccak256_digest(event_sig.as_bytes())
}

/// A query descriptor for one polling cycle: one contract address, an
/// optional topic-0 filter derived from an event signature, and an inclusive
/// block range.  Immutable per cycle.
pub struct EventFilter {
    pub address: Vec<u8>,
    pub topic0: Option<Vec<u8>>,
    pub from_block: u64,
    pub to_block: u64,
}

/// Build the filter for one cycle.  With a signature present the filter
/// selects logs whose topic 0 is the signature's Keccak-256 hash; without
/// one it matches all events of the contract.
pub fn build_filter(
    contract_address: &[u8],
    event_signature: &Option<String>,
    from_block: u64,
    to_block: u64,
) -> (f: EventFilter)
    ensures
        f.address@ == contract_address@,
        f.from_block == from_block,
        f.to_block == to_block,
        match *event_signature {
            Some(sig) => f.topic0 matches Some(t) && t@ == keccak_of(encode_utf8(sig@)),
            None => f.topic0 is None,
        },
{
    let topic0 = match event_signature {
        Some(sig) => Some(compute_event_topic(sig.as_str())),
        None => None,
    };
    EventFilter { address: slice_to_vec(contract_address), topic0, from_block, to_block }
}

} // verus!
