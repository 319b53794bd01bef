//! A byte buffer whose length `N` is part of its type, held inline (on the
//! stack when it is a local).
use vstd::prelude::*;
use vstd::string::StringSliceAdditionalSpecFns;
use vstd::utf8::encode_utf8;

use crate::codec::{bytes_equal, decode_into, decode_text, encode, hex_text, text_matches, Case, CasePolicy};
use crate::error::{bytes_of, fixed_parse, Error, HexArrayError};
use crate::hex_slice::HexSlice;
use crate::hex_string::HexString;
use crate::hex_vector::HexVector;
use crate::wrappers::random_byte;

verus! {

/// Exactly `N` bytes, written as `2 * N` hex digits.
#[derive(Clone, Debug, Hash)]
pub struct HexArray<const N: usize>([u8; N]);

impl<const N: usize> View for HexArray<N> {
    type V = Seq<u8>;

    closed spec fn view(&self) -> Seq<u8> {
        self.0@
    }
}

/// A fixed-length buffer always holds exactly `N` bytes.
pub broadcast proof fn lemma_array_len<const N: usize>(a: HexArray<N>)
    ensures
        #[trigger] a@.len() == N,
{
}

impl<const N: usize> HexArray<N> {
    /// Takes `v` as it is: every array is a valid buffer.
    pub fn new(v: [u8; N]) -> (r: Self)
        ensures
            r@ == v@,
    {
        HexArray(v)
    }

    /// Takes a boxed array as the heap-resident buffer, without moving its
    /// bytes.
    pub fn new_boxed(v: Box<[u8; N]>) -> (r: HexString<N>)
        ensures
            r@ == v@,
    {
        HexString::new(v)
    }

    /// `N` bytes from the thread-local random generator.
    pub fn random() -> (r: Self) {
        let mut a = [0u8; N];
        let mut k: usize = 0;
        while k < N
            invariant
                k <= N,
            decreases N - k,
        {
            a[k] = random_byte();
            k += 1;
        }
        HexArray(a)
    }

    /// Parses `bytes` under `policy`: it must have exactly `2 * N`
    /// characters, which is checked before any is decoded, and each pair of
    /// characters becomes one byte.
    pub fn try_parse_with(bytes: &[u8], policy: CasePolicy) -> (r: Result<Self, HexArrayError>)
        requires
            N <= usize::MAX / 2,
        ensures
            fixed_parse(bytes@, N as int, policy, bytes_of(r)),
    {
        let len = bytes.len();
        if len % 2 != 0 || len / 2 != N {
            return Err(HexArrayError::InvalidLength { expected: N * 2, encountered: len });
        }
        let mut a = [0u8; N];
        match decode_into(bytes, &mut a, policy) {
            Ok(()) => Ok(HexArray(a)),
            Err(index) => Err(HexArrayError::InvalidByte { msb: bytes[index], lsb: bytes[index + 1], index }),
        }
    }

    /// Parses `bytes`; both letter cases are accepted.
    pub fn try_parse(bytes: &[u8]) -> (r: Result<Self, HexArrayError>)
        requires
            N <= usize::MAX / 2,
        ensures
            fixed_parse(bytes@, N as int, CasePolicy::Any, bytes_of(r)),
    {
        Self::try_parse_with(bytes, CasePolicy::Any)
    }

    /// Parses `bytes`; only lowercase letters are accepted.
    pub fn try_parse_lower(bytes: &[u8]) -> (r: Result<Self, HexArrayError>)
        requires
            N <= usize::MAX / 2,
        ensures
            fixed_parse(bytes@, N as int, CasePolicy::Lower, bytes_of(r)),
    {
        Self::try_parse_with(bytes, CasePolicy::Lower)
    }

    /// Parses `bytes`; only uppercase letters are accepted.
    pub fn try_parse_upper(bytes: &[u8]) -> (r: Result<Self, HexArrayError>)
        requires
            N <= usize::MAX / 2,
        ensures
            fixed_parse(bytes@, N as int, CasePolicy::Upper, bytes_of(r)),
    {
        Self::try_parse_with(bytes, CasePolicy::Upper)
    }

    /// Parses `bytes` straight into heap storage; both letter cases are
    /// accepted.
    pub fn try_parse_boxed(bytes: &[u8]) -> (r: Result<HexString<N>, HexArrayError>)
        requires
            N <= usize::MAX / 2,
        ensures
            fixed_parse(bytes@, N as int, CasePolicy::Any, bytes_of(r)),
    {
        HexString::try_parse_with(bytes, CasePolicy::Any)
    }

    /// Parses `bytes` straight into heap storage; only lowercase letters are
    /// accepted.
    pub fn try_parse_lower_boxed(bytes: &[u8]) -> (r: Result<HexString<N>, HexArrayError>)
        requires
            N <= usize::MAX / 2,
        ensures
            fixed_parse(bytes@, N as int, CasePolicy::Lower, bytes_of(r)),
    {
        HexString::try_parse_with(bytes, CasePolicy::Lower)
    }

    /// Parses `bytes` straight into heap storage; only uppercase letters are
    /// accepted.
    pub fn try_parse_upper_boxed(bytes: &[u8]) -> (r: Result<HexString<N>, HexArrayError>)
        requires
            N <= usize::MAX / 2,
        ensures
            fixed_parse(bytes@, N as int, CasePolicy::Upper, bytes_of(r)),
    {
        HexString::try_parse_with(bytes, CasePolicy::Upper)
    }

    /// Parses `text`, accepting both letter cases; on failure the error
    /// hands `text` back beside what went wrong.
    pub fn try_parse_owned(text: String) -> (r: Result<Self, Error<String, HexArrayError>>)
        requires
            N <= usize::MAX / 2,
        ensures
            match r {
                Ok(v) => fixed_parse(encode_utf8(text@), N as int, CasePolicy::Any, Ok(v@)),
                Err(e) => e.spec_inner() == text && fixed_parse(
                    encode_utf8(text@),
                    N as int,
                    CasePolicy::Any,
                    Err(e.spec_kind()),
                ),
            },
    {
        let parsed = Self::try_parse_with(text.as_str().as_bytes(), CasePolicy::Any);
        match parsed {
            Ok(v) => Ok(v),
            Err(kind) => Err(Error::new(text, kind)),
        }
    }

    /// The lowercase hex text of the bytes.
    pub fn to_lower(&self) -> (r: String)
        ensures
            r@ == hex_text(self@, Case::Lower),
    {
        encode(&self.0, Case::Lower)
    }

    /// The uppercase hex text of the bytes.
    pub fn to_upper(&self) -> (r: String)
        ensures
            r@ == hex_text(self@, Case::Upper),
    {
        encode(&self.0, Case::Upper)
    }

    /// The array held.
    pub fn as_array(&self) -> (r: &[u8; N])
        ensures
            r@ == self@,
    {
        &self.0
    }

    /// The array held, to be changed in place.
    pub fn as_mut_array(&mut self) -> (r: &mut [u8; N])
        ensures
            r@ == old(self)@,
            final(self)@ == final(r)@,
    {
        &mut self.0
    }

    /// The bytes seen as a hex view, without a copy.
    pub fn as_hex_slice(&self) -> (r: HexSlice<&[u8]>)
        ensures
            r@ == self@,
    {
        HexSlice::new(&self.0)
    }

    /// The bytes seen as a hex view that can change them, without a copy.
    pub fn as_mut_hex_slice(&mut self) -> (r: HexSlice<&mut [u8]>)
        ensures
            r@ == old(self)@,
    {
        HexSlice::new_mut(&mut self.0)
    }

    /// Whether `text` spells the bytes under `policy`.
    pub fn eq_text(&self, text: &[u8], policy: CasePolicy) -> (r: bool)
        ensures
            r == (decode_text(text@, policy) == Some(self@)),
    {
        text_matches(&self.0, text, policy)
    }
}

impl<const N: usize> From<[u8; N]> for HexArray<N> {
    fn from(v: [u8; N]) -> (r: Self) {
        HexArray(v)
    }
}

impl<const N: usize> vstd::std_specs::convert::FromSpecImpl<[u8; N]> for HexArray<N> {
    open spec fn obeys_from_spec() -> bool {
        true
    }

    closed spec fn from_spec(v: [u8; N]) -> Self {
        HexArray(v)
    }
}

impl<const N: usize> PartialEq for HexArray<N> {
    fn eq(&self, other: &HexArray<N>) -> (r: bool) {
        bytes_equal(&self.0, &other.0)
    }
}

impl<const N: usize> vstd::std_specs::cmp::PartialEqSpecImpl for HexArray<N> {
    open spec fn obeys_eq_spec() -> bool {
        true
    }

    open spec fn eq_spec(&self, other: &HexArray<N>) -> bool {
        self@ == other@
    }
}

impl<const N: usize> Eq for HexArray<N> {

}

impl<const N: usize> PartialEq<[u8; N]> for HexArray<N> {
    fn eq(&self, other: &[u8; N]) -> (r: bool) {
        bytes_equal(&self.0, other)
    }
}

impl<const N: usize> vstd::std_specs::cmp::PartialEqSpecImpl<[u8; N]> for HexArray<N> {
    open spec fn obeys_eq_spec() -> bool {
        true
    }

    open spec fn eq_spec(&self, other: &[u8; N]) -> bool {
        self@ == other@
    }
}

impl<'b, const N: usize> PartialEq<&'b str> for HexArray<N> {
    fn eq(&self, other: &&'b str) -> (r: bool) {
        text_matches(&self.0, other.as_bytes(), CasePolicy::Any)
    }
}

impl<'b, const N: usize> vstd::std_specs::cmp::PartialEqSpecImpl<&'b str> for HexArray<N> {
    open spec fn obeys_eq_spec() -> bool {
        true
    }

    open spec fn eq_spec(&self, other: &&'b str) -> bool {
        decode_text(other.spec_bytes(), CasePolicy::Any) == Some(self@)
    }
}

impl<const N: usize> PartialEq<HexVector> for HexArray<N> {
    fn eq(&self, other: &HexVector) -> (r: bool) {
        bytes_equal(&self.0, other.as_slice())
    }
}

impl<const N: usize> vstd::std_specs::cmp::PartialEqSpecImpl<HexVector> for HexArray<N> {
    open spec fn obeys_eq_spec() -> bool {
        true
    }

    open spec fn eq_spec(&self, other: &HexVector) -> bool {
        self@ == other@
    }
}

impl<const N: usize> PartialEq<HexArray<N>> for HexVector {
    fn eq(&self, other: &HexArray<N>) -> (r: bool) {
        bytes_equal(self.as_slice(), &other.0)
    }
}

impl<const N: usize> vstd::std_specs::cmp::PartialEqSpecImpl<HexArray<N>> for HexVector {
    open spec fn obeys_eq_spec() -> bool {
        true
    }

    open spec fn eq_spec(&self, other: &HexArray<N>) -> bool {
        self@ == other@
    }
}

} // verus!
