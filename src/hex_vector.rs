//! A growable byte buffer that reads and writes itself as hex.
use vstd::prelude::*;
use vstd::string::StringSliceAdditionalSpecFns;
use vstd::utf8::encode_utf8;

use crate::codec::{bytes_equal, decode_into, decode_text, encode, hex_text, text_matches, Case, CasePolicy};
use crate::error::{bytes_of, vector_parse, Error, HexVectorError};
use crate::hex_slice::HexSlice;

verus! {

/// A byte buffer of any length, written as two hex digits per byte.
#[derive(Clone, Debug, Hash)]
pub struct HexVector(Vec<u8>);

impl View for HexVector {
    type V = Seq<u8>;

    closed spec fn view(&self) -> Seq<u8> {
        self.0@
    }
}

impl HexVector {
    /// Takes `v` as it is: every byte sequence is a valid buffer.
    pub fn new(v: Vec<u8>) -> (r: Self)
        ensures
            r@ == v@,
    {
        HexVector(v)
    }

    /// The number of bytes held.
    pub fn len(&self) -> (r: usize)
        ensures
            r == self@.len(),
    {
        self.0.len()
    }

    /// The lowercase hex text of the bytes.
    pub fn to_lower(&self) -> (r: String)
        ensures
            r@ == hex_text(self@, Case::Lower),
    {
        encode(self.0.as_slice(), Case::Lower)
    }

    /// The uppercase hex text of the bytes.
    pub fn to_upper(&self) -> (r: String)
        ensures
            r@ == hex_text(self@, Case::Upper),
    {
        encode(self.0.as_slice(), Case::Upper)
    }

    /// Parses `bytes` under `policy`: its length must be even, and each pair
    /// of characters becomes one byte. Nothing is kept of a failed parse.
    pub fn try_parse_with(bytes: &[u8], policy: CasePolicy) -> (r: Result<Self, HexVectorError>)
        ensures
            vector_parse(bytes@, policy, bytes_of(r)),
    {
        let len = bytes.len();
        if len % 2 != 0 {
            return Err(HexVectorError::InvalidLength { encountered: len });
        }
        let mut v: Vec<u8> = vec![0u8; len / 2];
        match decode_into(bytes, v.as_mut_slice(), policy) {
            Ok(()) => Ok(HexVector(v)),
            Err(index) => Err(HexVectorError::InvalidByte { msb: bytes[index], lsb: bytes[index + 1], index }),
        }
    }

    /// Parses `bytes`; both letter cases are accepted.
    pub fn try_parse(bytes: &[u8]) -> (r: Result<Self, HexVectorError>)
        ensures
            vector_parse(bytes@, CasePolicy::Any, bytes_of(r)),
    {
        Self::try_parse_with(bytes, CasePolicy::Any)
    }

    /// Parses `bytes`; only lowercase letters are accepted.
    pub fn try_parse_lower(bytes: &[u8]) -> (r: Result<Self, HexVectorError>)
        ensures
            vector_parse(bytes@, CasePolicy::Lower, bytes_of(r)),
    {
        Self::try_parse_with(bytes, CasePolicy::Lower)
    }

    /// Parses `bytes`; only uppercase letters are accepted.
    pub fn try_parse_upper(bytes: &[u8]) -> (r: Result<Self, HexVectorError>)
        ensures
            vector_parse(bytes@, CasePolicy::Upper, bytes_of(r)),
    {
        Self::try_parse_with(bytes, CasePolicy::Upper)
    }

    /// Parses `text`, accepting both letter cases; on failure the error
    /// hands `text` back beside what went wrong.
    pub fn try_parse_owned(text: String) -> (r: Result<Self, Error<String, HexVectorError>>)
        ensures
            match r {
                Ok(v) => vector_parse(encode_utf8(text@), CasePolicy::Any, Ok(v@)),
                Err(e) => e.spec_inner() == text && vector_parse(
                    encode_utf8(text@),
                    CasePolicy::Any,
                    Err(e.spec_kind()),
                ),
            },
    {
        let parsed = Self::try_parse_with(text.as_str().as_bytes(), CasePolicy::Any);
        match parsed {
            Ok(v) => Ok(v),
            Err(kind) => Err(Error::new(text, kind)),
        }
    }

    /// The bytes held.
    pub fn as_slice(&self) -> (r: &[u8])
        ensures
            r@ == self@,
    {
        self.0.as_slice()
    }

    /// The vector of bytes held, to be changed in place.
    pub fn as_mut_vec(&mut self) -> (r: &mut Vec<u8>)
        ensures
            r@ == old(self)@,
            final(self)@ == final(r)@,
    {
        &mut self.0
    }

    /// Appends one byte: the hex text grows by two characters.
    pub fn push(&mut self, b: u8)
        ensures
            final(self)@ == old(self)@.push(b),
    {
        self.0.push(b)
    }

    /// Removes the last byte, if any: the hex text shrinks by two characters.
    pub fn pop(&mut self) -> (r: Option<u8>)
        ensures
            old(self)@.len() == 0 ==> r is None && final(self)@ == old(self)@,
            old(self)@.len() > 0 ==> r == Some(old(self)@.last()) && final(self)@ == old(self)@.drop_last(),
    {
        self.0.pop()
    }

    /// The bytes seen as a hex view, without a copy.
    pub fn as_hex_slice(&self) -> (r: HexSlice<&[u8]>)
        ensures
            r@ == self@,
    {
        HexSlice::new(self.0.as_slice())
    }

    /// The bytes seen as a hex view that can change them, without a copy.
    pub fn as_mut_hex_slice(&mut self) -> (r: HexSlice<&mut [u8]>)
        ensures
            r@ == old(self)@,
    {
        HexSlice::new_mut(self.0.as_mut_slice())
    }

    /// Whether `text` spells the bytes under `policy`.
    pub fn eq_text(&self, text: &[u8], policy: CasePolicy) -> (r: bool)
        ensures
            r == (decode_text(text@, policy) == Some(self@)),
    {
        text_matches(self.0.as_slice(), text, policy)
    }
}

impl From<Vec<u8>> for HexVector {
    fn from(v: Vec<u8>) -> (r: Self) {
        HexVector(v)
    }
}

impl vstd::std_specs::convert::FromSpecImpl<Vec<u8>> for HexVector {
    open spec fn obeys_from_spec() -> bool {
        true
    }

    closed spec fn from_spec(v: Vec<u8>) -> Self {
        HexVector(v)
    }
}

impl PartialEq for HexVector {
    fn eq(&self, other: &HexVector) -> (r: bool) {
        bytes_equal(self.0.as_slice(), other.0.as_slice())
    }
}

impl vstd::std_specs::cmp::PartialEqSpecImpl for HexVector {
    open spec fn obeys_eq_spec() -> bool {
        true
    }

    open spec fn eq_spec(&self, other: &HexVector) -> bool {
        self@ == other@
    }
}

impl Eq for HexVector {

}

impl<'b> PartialEq<&'b [u8]> for HexVector {
    fn eq(&self, other: &&'b [u8]) -> (r: bool) {
        bytes_equal(self.0.as_slice(), *other)
    }
}

impl<'b> vstd::std_specs::cmp::PartialEqSpecImpl<&'b [u8]> for HexVector {
    open spec fn obeys_eq_spec() -> bool {
        true
    }

    open spec fn eq_spec(&self, other: &&'b [u8]) -> bool {
        self@ == other@
    }
}

impl<const N: usize> PartialEq<[u8; N]> for HexVector {
    fn eq(&self, other: &[u8; N]) -> (r: bool) {
        bytes_equal(self.0.as_slice(), other)
    }
}

impl<const N: usize> vstd::std_specs::cmp::PartialEqSpecImpl<[u8; N]> for HexVector {
    open spec fn obeys_eq_spec() -> bool {
        true
    }

    open spec fn eq_spec(&self, other: &[u8; N]) -> bool {
        self@ == other@
    }
}

impl<'b> PartialEq<&'b str> for HexVector {
    fn eq(&self, other: &&'b str) -> (r: bool) {
        text_matches(self.0.as_slice(), other.as_bytes(), CasePolicy::Any)
    }
}

impl<'b> vstd::std_specs::cmp::PartialEqSpecImpl<&'b str> for HexVector {
    open spec fn obeys_eq_spec() -> bool {
        true
    }

    open spec fn eq_spec(&self, other: &&'b str) -> bool {
        decode_text(other.spec_bytes(), CasePolicy::Any) == Some(self@)
    }
}

} // verus!
