//! The character-level codec: one hex digit to a nibble and back, two digits
//! to a byte and back, and the loops over whole buffers that every buffer type
//! shares.
use vstd::prelude::*;

use crate::wrappers::push_char;

verus! {

/// ASCII `0`.
pub const ZERO: u8 = 0x30;
/// ASCII `9`.
pub const NINE: u8 = 0x39;
/// ASCII `a`.
pub const LOWER_A: u8 = 0x61;
/// ASCII `f`.
pub const LOWER_F: u8 = 0x66;
/// ASCII `A`.
pub const UPPER_A: u8 = 0x41;
/// ASCII `F`.
pub const UPPER_F: u8 = 0x46;

/// Which letter cases a parse accepts for the digits `a`..`f`.
#[derive(Clone, Copy, Debug, PartialEq, Eq)]
pub enum CasePolicy {
    /// Both `a`..`f` and `A`..`F`.
    Any,
    /// Only `a`..`f`.
    Lower,
    /// Only `A`..`F`.
    Upper,
}

/// Which letter case formatting writes the digits `a`..`f` in.
#[derive(Clone, Copy, Debug, PartialEq, Eq)]
pub enum Case {
    Lower,
    Upper,
}

/// The value of the hex digit `c` under `policy`, or `None` when `c` is not
/// a digit that the policy accepts.
pub open spec fn nibble_value(c: u8, policy: CasePolicy) -> Option<u8> {
    if ZERO <= c && c <= NINE {
        Some((c - ZERO) as u8)
    } else if LOWER_A <= c && c <= LOWER_F && !(policy is Upper) {
        Some((c - LOWER_A + 10) as u8)
    } else if UPPER_A <= c && c <= UPPER_F && !(policy is Lower) {
        Some((c - UPPER_A + 10) as u8)
    } else {
        None
    }
}

/// The byte written as the two digits `msb`, `lsb`, high nibble first.
pub open spec fn pair_value(msb: u8, lsb: u8, policy: CasePolicy) -> Option<u8> {
    match (nibble_value(msb, policy), nibble_value(lsb, policy)) {
        (Some(h), Some(l)) => Some((h * 16 + l) as u8),
        _ => None,
    }
}

/// The byte written by the `k`-th pair of characters of `text`.
pub open spec fn pair_at(text: Seq<u8>, k: int, policy: CasePolicy) -> Option<u8> {
    pair_value(text[2 * k], text[2 * k + 1], policy)
}

/// The first `n` pairs of `text` are valid under `policy`.
pub open spec fn pairs_valid(text: Seq<u8>, policy: CasePolicy, n: int) -> bool {
    forall|k: int| 0 <= k < n ==> (#[trigger] pair_at(text, k, policy)) is Some
}

/// The bytes written by the first `n` pairs of `text`.
pub open spec fn decoded(text: Seq<u8>, policy: CasePolicy, n: int) -> Seq<u8> {
    Seq::new(
        n as nat,
        |k: int|
            match pair_at(text, k, policy) {
                Some(b) => b,
                None => 0u8,
            },
    )
}

/// The bytes that `text` spells in hex under `policy`, or `None` when its
/// length is odd or one of its pairs is not valid.
pub open spec fn decode_text(text: Seq<u8>, policy: CasePolicy) -> Option<Seq<u8>> {
    if text.len() % 2 == 0 && pairs_valid(text, policy, (text.len() / 2) as int) {
        Some(decoded(text, policy, (text.len() / 2) as int))
    } else {
        None
    }
}

/// The pair of characters that starts at `index` is the first pair of `text`
/// that is not valid under `policy`.
pub open spec fn first_invalid_pair(text: Seq<u8>, policy: CasePolicy, index: int) -> bool {
    &&& 0 <= index
    &&& index % 2 == 0
    &&& index + 1 < text.len()
    &&& pair_at(text, index / 2, policy) is None
    &&& pairs_valid(text, policy, index / 2)
}

/// The ASCII digit for the nibble `n` (below 16) in `case`.
pub open spec fn digit(n: int, case: Case) -> u8 {
    if n < 10 {
        (ZERO + n) as u8
    } else if case is Lower {
        (LOWER_A + n - 10) as u8
    } else {
        (UPPER_A + n - 10) as u8
    }
}

/// The hex digits of `bytes` in `case`, two per byte, high nibble first.
pub open spec fn hex_digits(bytes: Seq<u8>, case: Case) -> Seq<u8> {
    Seq::new(
        2 * bytes.len(),
        |i: int|
            if i % 2 == 0 {
                digit(bytes[i / 2] as int / 16, case)
            } else {
                digit(bytes[i / 2] as int % 16, case)
            },
    )
}

/// The hex text of `bytes` in `case`, as characters.
pub open spec fn hex_text(bytes: Seq<u8>, case: Case) -> Seq<char> {
    Seq::new(2 * bytes.len(), |i: int| hex_digits(bytes, case)[i] as char)
}

/// Decodes one hex digit under `policy`.
pub fn decode_nibble(c: u8, policy: CasePolicy) -> (r: Option<u8>)
    ensures
        r == nibble_value(c, policy),
{
    let lower_ok = match policy {
        CasePolicy::Upper => false,
        _ => true,
    };
    let upper_ok = match policy {
        CasePolicy::Lower => false,
        _ => true,
    };
    if ZERO <= c && c <= NINE {
        Some(c - ZERO)
    } else if LOWER_A <= c && c <= LOWER_F && lower_ok {
        Some(c - LOWER_A + 10)
    } else if UPPER_A <= c && c <= UPPER_F && upper_ok {
        Some(c - UPPER_A + 10)
    } else {
        None
    }
}

/// Decodes one hex digit, of either case.
pub fn parse_quartet(v: u8) -> (r: Option<u8>)
    ensures
        r == nibble_value(v, CasePolicy::Any),
{
    decode_nibble(v, CasePolicy::Any)
}

/// Decodes one hex digit; only lowercase letters are digits.
pub fn parse_quartet_lower(v: u8) -> (r: Option<u8>)
    ensures
        r == nibble_value(v, CasePolicy::Lower),
{
    decode_nibble(v, CasePolicy::Lower)
}

/// Decodes one hex digit; only uppercase letters are digits.
pub fn parse_quartet_upper(v: u8) -> (r: Option<u8>)
    ensures
        r == nibble_value(v, CasePolicy::Upper),
{
    decode_nibble(v, CasePolicy::Upper)
}

/// Decodes the two digits `msb`, `lsb` into one byte.
pub fn decode_byte(msb: u8, lsb: u8, policy: CasePolicy) -> (r: Option<u8>)
    ensures
        r == pair_value(msb, lsb, policy),
{
    match decode_nibble(msb, policy) {
        Some(h) => match decode_nibble(lsb, policy) {
            Some(l) => Some(h * 16 + l),
            None => None,
        },
        None => None,
    }
}

fn encode_nibble(n: u8, case: Case) -> (r: u8)
    requires
        n < 16,
    ensures
        r == digit(n as int, case),
{
    if n < 10 {
        ZERO + n
    } else {
        match case {
            Case::Lower => LOWER_A + n - 10,
            Case::Upper => UPPER_A + n - 10,
        }
    }
}

/// The two hex digits of `v` in `case`, high nibble first.
pub fn encode_byte(v: u8, case: Case) -> (r: [u8; 2])
    ensures
        r@ == seq![digit(v as int / 16, case), digit(v as int % 16, case)],
{
    let r = [encode_nibble(v / 16, case), encode_nibble(v % 16, case)];
    assert(r@ =~= seq![digit(v as int / 16, case), digit(v as int % 16, case)]);
    r
}

/// The two lowercase hex digits of `v`.
pub fn to_hex_lower(v: u8) -> (r: [u8; 2])
    ensures
        r@ == hex_digits(seq![v], Case::Lower),
{
    let r = encode_byte(v, Case::Lower);
    assert(r@ =~= hex_digits(seq![v], Case::Lower));
    r
}

/// The two uppercase hex digits of `v`.
pub fn to_hex_upper(v: u8) -> (r: [u8; 2])
    ensures
        r@ == hex_digits(seq![v], Case::Upper),
{
    let r = encode_byte(v, Case::Upper);
    assert(r@ =~= hex_digits(seq![v], Case::Upper));
    r
}

/// Decodes `text` into `out`, pair by pair from the left, and stops at the
/// first pair that is not valid, returning the index of its first character.
pub fn decode_into(text: &[u8], out: &mut [u8], policy: CasePolicy) -> (r: Result<(), usize>)
    requires
        text@.len() == 2 * old(out)@.len(),
    ensures
        final(out)@.len() == old(out)@.len(),
        r is Ok <==> decode_text(text@, policy) is Some,
        match r {
            Ok(()) => decode_text(text@, policy) == Some(final(out)@),
            Err(index) => first_invalid_pair(text@, policy, index as int),
        },
{
    let n = out.len();
    let len = text.len();
    let mut k: usize = 0;
    while k < n
        invariant
            len == text@.len(),
            text@.len() == 2 * n,
            out@.len() == n,
            old(out)@.len() == n,
            k <= n,
            pairs_valid(text@, policy, k as int),
            forall|j: int| 0 <= j < k ==> Some(#[trigger] out@[j]) == pair_at(text@, j, policy),
        decreases n - k,
    {
        let i = 2 * k;
        match decode_byte(text[i], text[i + 1], policy) {
            Some(b) => {
                out[k] = b;
            },
            None => {
                assert(pair_at(text@, k as int, policy) is None);
                assert(!pairs_valid(text@, policy, n as int));
                return Err(i);
            },
        }
        k += 1;
    }
    assert(out@ =~= decoded(text@, policy, n as int));
    Ok(())
}

/// The hex text of `bytes` in `case`.
pub fn encode(bytes: &[u8], case: Case) -> (r: String)
    ensures
        r@ == hex_text(bytes@, case),
{
    let mut s = String::new();
    let n = bytes.len();
    let mut k: usize = 0;
    while k < n
        invariant
            n == bytes@.len(),
            k <= n,
            s@ =~= hex_text(bytes@, case).subrange(0, 2 * k as int),
        decreases n - k,
    {
        let d = encode_byte(bytes[k], case);
        push_char(&mut s, d[0] as char);
        push_char(&mut s, d[1] as char);
        k += 1;
        assert(s@ =~= hex_text(bytes@, case).subrange(0, 2 * k as int));
    }
    s
}

/// Compares `bytes` with the bytes that `text` spells under `policy`, pair by
/// pair, and stops at the first pair that is not valid or that differs.
pub fn text_matches(bytes: &[u8], text: &[u8], policy: CasePolicy) -> (r: bool)
    ensures
        r == (decode_text(text@, policy) == Some(bytes@)),
{
    if text.len() % 2 != 0 || text.len() / 2 != bytes.len() {
        return false;
    }
    let n = bytes.len();
    let len = text.len();
    let mut k: usize = 0;
    while k < n
        invariant
            len == text@.len(),
            text@.len() == 2 * n,
            n == bytes@.len(),
            k <= n,
            pairs_valid(text@, policy, k as int),
            forall|j: int| 0 <= j < k ==> Some(#[trigger] bytes@[j]) == pair_at(text@, j, policy),
        decreases n - k,
    {
        let i = 2 * k;
        match decode_byte(text[i], text[i + 1], policy) {
            Some(b) => {
                if b != bytes[k] {
                    assert(decoded(text@, policy, n as int)[k as int] == b);
                    return false;
                }
            },
            None => {
                assert(pair_at(text@, k as int, policy) is None);
                return false;
            },
        }
        k += 1;
    }
    assert(bytes@ =~= decoded(text@, policy, n as int));
    true
}

/// Compares two byte sequences element by element.
pub fn bytes_equal(a: &[u8], b: &[u8]) -> (r: bool)
    ensures
        r == (a@ == b@),
{
    if a.len() != b.len() {
        return false;
    }
    let n = a.len();
    let mut k: usize = 0;
    while k < n
        invariant
            n == a@.len(),
            n == b@.len(),
            k <= n,
            forall|j: int| 0 <= j < k ==> a@[j] == b@[j],
        decreases n - k,
    {
        if a[k] != b[k] {
            return false;
        }
        k += 1;
    }
    assert(a@ =~= b@);
    true
}

} // verus!
