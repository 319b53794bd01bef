//! What holds of the codec across calls, stated over the same spec functions
//! that the contracts of the buffer types use.
use vstd::prelude::*;
use vstd::utf8::{encode_utf8, is_ascii_chars, is_ascii_chars_encode_utf8};

use crate::codec::{
    decode_text, decoded, digit, hex_digits, hex_text, nibble_value, pair_at, pair_value,
    pairs_valid, Case, CasePolicy,
};
use crate::error::{fixed_parse, vector_parse, HexArrayError, HexVectorError};

verus! {

/// The parse policy that accepts exactly the letters that `case` writes.
pub open spec fn policy_of(case: Case) -> CasePolicy {
    match case {
        Case::Lower => CasePolicy::Lower,
        Case::Upper => CasePolicy::Upper,
    }
}

/// `c` is a decimal digit or a letter `a`..`f` written in `case`.
pub open spec fn is_hex_char(c: char, case: Case) -> bool {
    ||| '0' <= c <= '9'
    ||| case is Lower && 'a' <= c <= 'f'
    ||| case is Upper && 'A' <= c <= 'F'
}

proof fn lemma_digit_decodes(n: int, case: Case, policy: CasePolicy)
    requires
        0 <= n < 16,
        policy is Any || policy == policy_of(case),
    ensures
        nibble_value(digit(n, case), policy) == Some(n as u8),
{
}

proof fn lemma_pair_decodes(b: u8, case: Case, policy: CasePolicy)
    requires
        policy is Any || policy == policy_of(case),
    ensures
        pair_value(digit(b as int / 16, case), digit(b as int % 16, case), policy) == Some(b),
{
    lemma_digit_decodes(b as int / 16, case, policy);
    lemma_digit_decodes(b as int % 16, case, policy);
}

proof fn lemma_digits_decode(bytes: Seq<u8>, case: Case, policy: CasePolicy)
    requires
        policy is Any || policy == policy_of(case),
    ensures
        decode_text(hex_digits(bytes, case), policy) == Some(bytes),
{
    let text = hex_digits(bytes, case);
    let n = bytes.len() as int;
    assert forall|k: int| 0 <= k < n implies pair_at(text, k, policy) == Some(bytes[k]) by {
        assert(text[2 * k] == digit(bytes[k] as int / 16, case));
        assert(text[2 * k + 1] == digit(bytes[k] as int % 16, case));
        lemma_pair_decodes(bytes[k], case, policy);
    }
    assert(pairs_valid(text, policy, n));
    assert(decoded(text, policy, n) =~= bytes);
}

proof fn lemma_text_is_ascii(bytes: Seq<u8>, case: Case)
    ensures
        is_ascii_chars(hex_text(bytes, case)),
        forall|i: int|
            0 <= i < 2 * bytes.len() ==> (#[trigger] hex_text(bytes, case)[i]) as u8 == hex_digits(
                bytes,
                case,
            )[i],
{
    let t = hex_text(bytes, case);
    let d = hex_digits(bytes, case);
    assert forall|i: int| 0 <= i < t.len() implies '\0' <= #[trigger] t[i] <= '\u{7f}' && t[i] as u8
        == d[i] by {
        let v = if i % 2 == 0 {
            bytes[i / 2] as int / 16
        } else {
            bytes[i / 2] as int % 16
        };
        assert(0 <= v < 16);
        assert(d[i] == digit(v, case));
        assert(d[i] < 128);
    }
}

/// Formatting bytes, in either case, and parsing the text back gives the
/// same bytes: under the policy that accepts both cases, and under the one
/// that accepts only the case written. The text of a formatted `String` is
/// its bytes, one per character.
pub proof fn lemma_round_trip(bytes: Seq<u8>, case: Case)
    ensures
        encode_utf8(hex_text(bytes, case)) == hex_digits(bytes, case),
        vector_parse(hex_digits(bytes, case), CasePolicy::Any, Ok(bytes)),
        vector_parse(hex_digits(bytes, case), policy_of(case), Ok(bytes)),
        fixed_parse(hex_digits(bytes, case), bytes.len() as int, CasePolicy::Any, Ok(bytes)),
        fixed_parse(hex_digits(bytes, case), bytes.len() as int, policy_of(case), Ok(bytes)),
{
    lemma_digits_decode(bytes, case, CasePolicy::Any);
    lemma_digits_decode(bytes, case, policy_of(case));
    lemma_text_is_ascii(bytes, case);
    is_ascii_chars_encode_utf8(hex_text(bytes, case));
    assert(encode_utf8(hex_text(bytes, case)) =~= hex_digits(bytes, case));
}

/// Formatted text has two characters per byte, each a decimal digit or a
/// letter `a`..`f` in the case asked for.
pub proof fn lemma_format_alphabet(bytes: Seq<u8>, case: Case)
    ensures
        hex_text(bytes, case).len() == 2 * bytes.len(),
        forall|i: int|
            0 <= i < 2 * bytes.len() ==> is_hex_char(#[trigger] hex_text(bytes, case)[i], case),
{
    let t = hex_text(bytes, case);
    let d = hex_digits(bytes, case);
    assert forall|i: int| 0 <= i < 2 * bytes.len() implies is_hex_char(#[trigger] t[i], case) by {
        let v = if i % 2 == 0 {
            bytes[i / 2] as int / 16
        } else {
            bytes[i / 2] as int % 16
        };
        assert(0 <= v < 16);
        assert(d[i] == digit(v, case));
        assert(t[i] == d[i] as char);
    }
}

/// Text of odd length is refused for its length, whatever its characters,
/// by the growable buffer and by a fixed buffer of any length.
pub proof fn lemma_odd_length_refused(
    text: Seq<u8>,
    policy: CasePolicy,
    n: int,
    vector: Result<Seq<u8>, HexVectorError>,
    fixed: Result<Seq<u8>, HexArrayError>,
)
    requires
        text.len() % 2 == 1,
        vector_parse(text, policy, vector),
        fixed_parse(text, n, policy, fixed),
    ensures
        vector == Err::<Seq<u8>, HexVectorError>(
            HexVectorError::InvalidLength { encountered: text.len() as usize },
        ),
        fixed matches Err(HexArrayError::InvalidLength { expected, encountered }) && encountered
            == text.len() && expected == 2 * n,
{
}

} // verus!
