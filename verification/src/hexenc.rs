//! Lowercase hex encoding of byte strings, and its inverse.
//!
//! The deposit-data file and the directory name both carry a `0x`-prefixed
//! lowercase hex rendering of raw bytes.  Encoding always produces lowercase
//! digits; decoding tolerates uppercase ones as well, and rejects anything
//! else.

use vstd::prelude::*;
use vstd::arithmetic::div_mod::lemma_fundamental_div_mod;

verus! {

/// The lowercase hex digit for a value below sixteen.
pub open spec fn lower_hex_digit(n: u8) -> u8
    recommends
        n < 16,
{
    if n < 10 {
        (48 + n) as u8
    } else {
        (87 + n) as u8
    }
}

/// The lowercase hex rendering of a byte string: two digits per byte,
/// high nibble first.
pub open spec fn hex_of(b: Seq<u8>) -> Seq<u8>
    decreases b.len(),
{
    if b.len() == 0 {
        Seq::empty()
    } else {
        hex_of(b.drop_last()) + seq![
            lower_hex_digit(b.last() / 16),
            lower_hex_digit(b.last() % 16),
        ]
    }
}

/// A byte that is an ASCII hex digit of either case.
pub open spec fn is_hex_digit(c: u8) -> bool {
    (48 <= c && c <= 57) || (97 <= c && c <= 102) || (65 <= c && c <= 70)
}

/// A byte that is a lowercase ASCII hex digit (what encoding produces).
pub open spec fn is_lower_hex_digit(c: u8) -> bool {
    (48 <= c && c <= 57) || (97 <= c && c <= 102)
}

/// The value of a hex digit of either case.
pub open spec fn hex_val(c: u8) -> u8
    recommends
        is_hex_digit(c),
{
    if 48 <= c && c <= 57 {
        (c - 48) as u8
    } else if 97 <= c {
        (c - 87) as u8
    } else {
        (c - 55) as u8
    }
}

/// Every byte of the string is a hex digit.
pub open spec fn all_hex_digits(s: Seq<u8>) -> bool {
    forall|i: int| 0 <= i < s.len() ==> is_hex_digit(s[i])
}

/// The bytes denoted by a well-formed hex string.
pub open spec fn hex_decoded(s: Seq<u8>) -> Seq<u8>
    recommends
        s.len() % 2 == 0,
        all_hex_digits(s),
{
    Seq::new(s.len() / 2, |j: int| (hex_val(s[2 * j]) * 16 + hex_val(s[2 * j + 1])) as u8)
}

/// What decoding returns: the denoted bytes exactly when the string is
/// well-formed hex of even length, nothing otherwise.
pub open spec fn hex_decode_spec(s: Seq<u8>) -> Option<Seq<u8>> {
    if s.len() % 2 == 0 && all_hex_digits(s) {
        Some(hex_decoded(s))
    } else {
        None
    }
}

fn lower_hex_digit_exec(n: u8) -> (r: u8)
    requires
        n < 16,
    ensures
        r == lower_hex_digit(n),
{
    if n < 10 {
        48 + n
    } else {
        87 + n
    }
}

fn is_hex_digit_exec(c: u8) -> (r: bool)
    ensures
        r == is_hex_digit(c),
{
    (48 <= c && c <= 57) || (97 <= c && c <= 102) || (65 <= c && c <= 70)
}

fn hex_val_exec(c: u8) -> (r: u8)
    requires
        is_hex_digit(c),
    ensures
        r == hex_val(c),
        r < 16,
{
    if 48 <= c && c <= 57 {
        c - 48
    } else if 97 <= c {
        c - 87
    } else {
        c - 55
    }
}

/// Encode a byte string as lowercase hex, two digits per byte.
pub fn hex_encode(bytes: &Vec<u8>) -> (r: Vec<u8>)
    ensures
        r@ == hex_of(bytes@),
{
    let mut r: Vec<u8> = Vec::new();
    let mut i: usize = 0;
    while i < bytes.len()
        invariant
            i <= bytes.len(),
            r@ == hex_of(bytes@.take(i as int)),
        decreases bytes.len() - i,
    {
        let b = bytes[i];
        r.push(lower_hex_digit_exec(b / 16));
        r.push(lower_hex_digit_exec(b % 16));
        proof {
            let t = bytes@.take(i as int + 1);
            assert(t.drop_last() =~= bytes@.take(i as int));
            assert(t.last() == bytes@[i as int]);
            assert(r@ =~= hex_of(t));
        }
        i = i + 1;
    }
    proof {
        assert(bytes@.take(bytes@.len() as int) =~= bytes@);
    }
    r
}

/// Decode a hex string of either case.  Returns the denoted bytes exactly
/// when every byte is a hex digit and their number is even.
pub fn hex_decode(s: &Vec<u8>) -> (r: Option<Vec<u8>>)
    ensures
        r is Some <==> hex_decode_spec(s@) is Some,
        r matches Some(v) ==> Some(v@) == hex_decode_spec(s@),
{
    if s.len() % 2 != 0 {
        return None;
    }
    let half: usize = s.len() / 2;
    proof {
        assert(2 * half == s@.len());
    }
    let mut out: Vec<u8> = Vec::new();
    let mut j: usize = 0;
    while j < half
        invariant
            j <= half,
            2 * half == s@.len(),
            s@.len() <= usize::MAX,
            s@.len() % 2 == 0,
            out@.len() == j,
            forall|i: int| 0 <= i < 2 * j ==> is_hex_digit(s@[i]),
            forall|k: int| 0 <= k < j ==> out@[k] == (hex_val(s@[2 * k]) * 16 + hex_val(
                s@[2 * k + 1],
            )) as u8,
        decreases half - j,
    {
        let hi = s[2 * j];
        let lo = s[2 * j + 1];
        if !is_hex_digit_exec(hi) || !is_hex_digit_exec(lo) {
            return None;
        }
        let hv = hex_val_exec(hi);
        let lv = hex_val_exec(lo);
        out.push(hv * 16 + lv);
        j = j + 1;
    }
    proof {
        assert(out@ =~= hex_decoded(s@));
    }
    Some(out)
}

/// A hex digit's rendering decodes back to its value, and is lowercase.
pub proof fn lemma_lower_hex_digit(n: u8)
    requires
        n < 16,
    ensures
        is_lower_hex_digit(lower_hex_digit(n)),
        is_hex_digit(lower_hex_digit(n)),
        hex_val(lower_hex_digit(n)) == n,
{
}

/// The hex rendering is twice as long as the bytes it renders.
pub proof fn lemma_hex_of_len(b: Seq<u8>)
    ensures
        hex_of(b).len() == 2 * b.len(),
    decreases b.len(),
{
    if b.len() > 0 {
        lemma_hex_of_len(b.drop_last());
    }
}

/// The two digits standing for byte `i` of the input.
pub proof fn lemma_hex_of_index(b: Seq<u8>, i: int)
    requires
        0 <= i < b.len(),
    ensures
        hex_of(b)[2 * i] == lower_hex_digit(b[i] / 16),
        hex_of(b)[2 * i + 1] == lower_hex_digit(b[i] % 16),
    decreases b.len(),
{
    lemma_hex_of_len(b.drop_last());
    if i == b.len() - 1 {
    } else {
        lemma_hex_of_index(b.drop_last(), i);
    }
}

/// Every byte of a hex rendering is a lowercase hex digit.
pub proof fn lemma_hex_of_lowercase(b: Seq<u8>)
    ensures
        hex_of(b).len() == 2 * b.len(),
        hex_of(b).len() % 2 == 0,
        all_hex_digits(hex_of(b)),
        forall|i: int| 0 <= i < hex_of(b).len() ==> is_lower_hex_digit(#[trigger] hex_of(b)[i]),
{
    lemma_hex_of_len(b);
    assert forall|i: int| 0 <= i < hex_of(b).len() implies is_lower_hex_digit(
        #[trigger] hex_of(b)[i],
    ) && is_hex_digit(hex_of(b)[i]) by {
        let j = i / 2;
        assert(i == 2 * j || i == 2 * j + 1);
        lemma_hex_of_index(b, j);
        lemma_lower_hex_digit(b[j] / 16);
        lemma_lower_hex_digit(b[j] % 16);
    }
}

/// Decoding a hex rendering recovers exactly the rendered bytes.
pub proof fn lemma_hex_round_trip(b: Seq<u8>)
    ensures
        hex_decode_spec(hex_of(b)) == Some(b),
{
    lemma_hex_of_lowercase(b);
    let h = hex_of(b);
    assert forall|j: int| 0 <= j < b.len() implies hex_decoded(h)[j] == b[j] by {
        lemma_hex_of_index(b, j);
        lemma_lower_hex_digit(b[j] / 16);
        lemma_lower_hex_digit(b[j] % 16);
        lemma_fundamental_div_mod(b[j] as int, 16);
    }
    assert(hex_decoded(h) =~= b);
}

/// Two byte strings with the same hex rendering are the same.
pub proof fn lemma_hex_of_injective(a: Seq<u8>, b: Seq<u8>)
    requires
        hex_of(a) == hex_of(b),
    ensures
        a == b,
{
    lemma_hex_round_trip(a);
    lemma_hex_round_trip(b);
}

} // verus!
