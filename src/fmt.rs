//! Borrowed bytes to be written out as hex in one fixed case.
use vstd::prelude::*;

use crate::codec::{encode, hex_text, Case};

verus! {

/// Borrowed bytes, written out as lowercase hex.
pub struct Lower<'a>(&'a [u8]);

impl<'a> View for Lower<'a> {
    type V = Seq<u8>;

    closed spec fn view(&self) -> Seq<u8> {
        self.0@
    }
}

impl<'a> Lower<'a> {
    pub fn new(bytes: &'a [u8]) -> (r: Self)
        ensures
            r@ == bytes@,
    {
        Lower(bytes)
    }

    /// The text: two lowercase digits per byte.
    pub fn to_string(&self) -> (r: String)
        ensures
            r@ == hex_text(self@, Case::Lower),
    {
        encode(self.0, Case::Lower)
    }
}

/// Borrowed bytes, written out as uppercase hex.
pub struct Upper<'a>(&'a [u8]);

impl<'a> View for Upper<'a> {
    type V = Seq<u8>;

    closed spec fn view(&self) -> Seq<u8> {
        self.0@
    }
}

impl<'a> Upper<'a> {
    pub fn new(bytes: &'a [u8]) -> (r: Self)
        ensures
            r@ == bytes@,
    {
        Upper(bytes)
    }

    /// The text: two uppercase digits per byte.
    pub fn to_string(&self) -> (r: String)
        ensures
            r@ == hex_text(self@, Case::Upper),
    {
        encode(self.0, Case::Upper)
    }
}

} // verus!
