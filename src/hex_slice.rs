//! A borrowed view of bytes that reads and writes itself as hex, without
//! copying them: `HexSlice<&[u8]>` to read, `HexSlice<&mut [u8]>` to change
//! the bytes in place.
use vstd::prelude::*;
use vstd::string::StringSliceAdditionalSpecFns;

use crate::codec::{bytes_equal, decode_text, encode, hex_text, text_matches, Case, CasePolicy};

verus! {

/// Bytes borrowed from a buffer, seen as hex; `B` is `&[u8]` or `&mut [u8]`.
#[derive(Debug)]
pub struct HexSlice<B>(B);

impl<'a> View for HexSlice<&'a [u8]> {
    type V = Seq<u8>;

    closed spec fn view(&self) -> Seq<u8> {
        self.0@
    }
}

impl<'a> View for HexSlice<&'a mut [u8]> {
    type V = Seq<u8>;

    closed spec fn view(&self) -> Seq<u8> {
        (*self.0)@
    }
}

impl<'a> HexSlice<&'a [u8]> {
    /// Views `v` as hex.
    pub fn new(v: &'a [u8]) -> (r: Self)
        ensures
            r@ == v@,
    {
        HexSlice(v)
    }

    /// The bytes seen.
    pub fn as_slice(&self) -> (r: &'a [u8])
        ensures
            r@ == self@,
    {
        self.0
    }

    /// The lowercase hex text of the bytes.
    pub fn to_lower(&self) -> (r: String)
        ensures
            r@ == hex_text(self@, Case::Lower),
    {
        encode(self.0, Case::Lower)
    }

    /// The uppercase hex text of the bytes.
    pub fn to_upper(&self) -> (r: String)
        ensures
            r@ == hex_text(self@, Case::Upper),
    {
        encode(self.0, Case::Upper)
    }

    /// Whether `text` spells the bytes under `policy`.
    pub fn eq_text(&self, text: &[u8], policy: CasePolicy) -> (r: bool)
        ensures
            r == (decode_text(text@, policy) == Some(self@)),
    {
        text_matches(self.0, text, policy)
    }
}

impl<'a> HexSlice<&'a mut [u8]> {
    /// Views `v` as hex, with the right to change its bytes.
    pub fn new_mut(v: &'a mut [u8]) -> (r: Self)
        ensures
            r@ == old(v)@,
    {
        HexSlice(v)
    }

    /// The bytes seen, to be changed in place.
    pub fn as_mut_slice(&mut self) -> (r: &mut [u8])
        ensures
            r@ == old(self)@,
            final(self)@ == final(r)@,
    {
        &mut *self.0
    }

    /// The lowercase hex text of the bytes.
    pub fn to_lower(&self) -> (r: String)
        ensures
            r@ == hex_text(self@, Case::Lower),
    {
        encode(&*self.0, Case::Lower)
    }

    /// The uppercase hex text of the bytes.
    pub fn to_upper(&self) -> (r: String)
        ensures
            r@ == hex_text(self@, Case::Upper),
    {
        encode(&*self.0, Case::Upper)
    }
}

impl<'a> From<&'a [u8]> for HexSlice<&'a [u8]> {
    fn from(v: &'a [u8]) -> (r: Self) {
        HexSlice(v)
    }
}

impl<'a> vstd::std_specs::convert::FromSpecImpl<&'a [u8]> for HexSlice<&'a [u8]> {
    open spec fn obeys_from_spec() -> bool {
        true
    }

    closed spec fn from_spec(v: &'a [u8]) -> Self {
        HexSlice(v)
    }
}

impl<'a> core::ops::Deref for HexSlice<&'a [u8]> {
    type Target = [u8];

    fn deref(&self) -> &[u8] {
        self.0
    }
}

impl<'a, 'b> PartialEq<&'b [u8]> for HexSlice<&'a [u8]> {
    fn eq(&self, other: &&'b [u8]) -> (r: bool) {
        bytes_equal(self.0, *other)
    }
}

impl<'a, 'b> vstd::std_specs::cmp::PartialEqSpecImpl<&'b [u8]> for HexSlice<&'a [u8]> {
    open spec fn obeys_eq_spec() -> bool {
        true
    }

    open spec fn eq_spec(&self, other: &&'b [u8]) -> bool {
        self@ == other@
    }
}

impl<'a, 'b> PartialEq<&'b str> for HexSlice<&'a [u8]> {
    fn eq(&self, other: &&'b str) -> (r: bool) {
        text_matches(self.0, other.as_bytes(), CasePolicy::Any)
    }
}

impl<'a, 'b> vstd::std_specs::cmp::PartialEqSpecImpl<&'b str> for HexSlice<&'a [u8]> {
    open spec fn obeys_eq_spec() -> bool {
        true
    }

    open spec fn eq_spec(&self, other: &&'b str) -> bool {
        decode_text(other.spec_bytes(), CasePolicy::Any) == Some(self@)
    }
}

} // verus!
