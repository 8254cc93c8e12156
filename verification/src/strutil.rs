use vstd::prelude::*;
use vstd::string::StrSliceExecFns;
use vstd::string::StringExecFns;

verus! {

/// Relies on String::push: appends exactly the given character.
#[verifier::external_body]
pub(crate) fn push_char(s: &mut String, c: char)
    ensures
        final(s)@ == old(s)@.push(c),
{
    s.push(c);
}

/// The lowercase hexadecimal digit for a value below sixteen.
pub open spec fn hex_digit(n: u8) -> char
    recommends
        n < 16,
{
    if n == 0 {
        '0'
    } else if n == 1 {
        '1'
    } else if n == 2 {
        '2'
    } else if n == 3 {
        '3'
    } else if n == 4 {
        '4'
    } else if n == 5 {
        '5'
    } else if n == 6 {
        '6'
    } else if n == 7 {
        '7'
    } else if n == 8 {
        '8'
    } else if n == 9 {
        '9'
    } else if n == 10 {
        'a'
    } else if n == 11 {
        'b'
    } else if n == 12 {
        'c'
    } else if n == 13 {
        'd'
    } else if n == 14 {
        'e'
    } else {
        'f'
    }
}

pub(crate) fn hex_digit_exec(n: u8) -> (c: char)
    requires
        n < 16,
    ensures
        c == hex_digit(n),
{
    match n {
        0 => '0',
        1 => '1',
        2 => '2',
        3 => '3',
        4 => '4',
        5 => '5',
        6 => '6',
        7 => '7',
        8 => '8',
        9 => '9',
        10 => 'a',
        11 => 'b',
        12 => 'c',
        13 => 'd',
        14 => 'e',
        _ => 'f',
    }
}

/// Lowercase hex rendering of a byte sequence: two digits per byte, in order.
pub open spec fn hex_of(bytes: Seq<u8>) -> Seq<char>
    decreases bytes.len(),
{
    if bytes.len() == 0 {
        Seq::empty()
    } else {
        hex_of(bytes.drop_last()) + seq![
            hex_digit(bytes.last() / 16),
            hex_digit(bytes.last() % 16),
        ]
    }
}

/// Hex rendering with the conventional `0x` prefix.
pub open spec fn hex0x_of(bytes: Seq<u8>) -> Seq<char> {
    "0x"@ + hex_of(bytes)
}

/// Append the hex rendering of `bytes` to `out`.
fn append_hex(out: &mut String, bytes: &[u8])
    ensures
        final(out)@ == old(out)@ + hex_of(bytes@),
{
    let n = bytes.len();
    let mut i: usize = 0;
    while i < n
        invariant
            n == bytes@.len(),
            i <= n,
            out@ == old(out)@ + hex_of(bytes@.take(i as int)),
        decreases n - i,
    {
        let b = bytes[i];
        push_char(out, hex_digit_exec(b / 16));
        push_char(out, hex_digit_exec(b % 16));
        proof {
            assert(bytes@.take(i + 1).drop_last() =~= bytes@.take(i as int));
            assert(bytes@.take(i + 1).last() == bytes@[i as int]);
            assert(out@ =~= old(out)@ + hex_of(bytes@.take(i + 1)));
        }
        i += 1;
    }
    proof {
        assert(bytes@.take(n as int) =~= bytes@);
    }
}

/// Hex rendering of a byte slice, without prefix.
pub fn hex_encode(bytes: &[u8]) -> (r: String)
    ensures
        r@ == hex_of(bytes@),
{
    let mut r = String::new();
    append_hex(&mut r, bytes);
    proof {
        assert(r@ =~= hex_of(bytes@));
    }
    r
}

/// Hex rendering of a byte slice with the `0x` prefix.
pub fn hex_encode_prefixed(bytes: &[u8]) -> (r: String)
    ensures
        r@ == hex0x_of(bytes@),
{
    let mut r = String::from_str("0x");
    append_hex(&mut r, bytes);
    r
}

/// The decimal digit character for a value below ten.
pub open spec fn dec_digit(n: int) -> char
    recommends
        0 <= n < 10,
{
    hex_digit(n as u8)
}

/// Decimal rendering of a non-negative integer, without leading zeros
/// (a single `0` for zero itself).
pub open spec fn dec_of(n: int) -> Seq<char>
    recommends
        n >= 0,
    decreases n,
{
    if n <= 9 {
        seq![dec_digit(n)]
    } else {
        dec_of(n / 10) + seq![dec_digit(n % 10)]
    }
}

/// Decimal rendering of a 64-bit number.
pub fn u64_to_dec(n: u64) -> (r: String)
    ensures
        r@ == dec_of(n as int),
    decreases n,
{
    if n <= 9 {
        let mut s = String::new();
        push_char(&mut s, hex_digit_exec((n % 16) as u8));
        proof {
            assert(s@ =~= dec_of(n as int));
        }
        s
    } else {
        let mut s = u64_to_dec(n / 10);
        push_char(&mut s, hex_digit_exec((n % 10) as u8));
        proof {
            assert(s@ =~= dec_of(n as int));
        }
        s
    }
}

/// The first `k` characters of `s`, or all of `s` where it is shorter.
pub open spec fn prefix_of(s: Seq<char>, k: int) -> Seq<char> {
    if k <= s.len() {
        s.take(k)
    } else {
        s
    }
}

/// Truncate a string to its first `k` characters.
pub fn prefix_chars(s: &str, k: usize) -> (r: String)
    ensures
        r@ == prefix_of(s@, k as int),
{
    let n = s.unicode_len();
    let m = if k < n {
        k
    } else {
        n
    };
    let sub = s.substring_char(0, m);
    proof {
        assert(sub@ =~= prefix_of(s@, k as int));
    }
    String::from_str(sub)
}

} // verus!
