//! What a parse reports when the text is not hex of the right length.
use vstd::prelude::*;

use crate::codec::{decode_text, first_invalid_pair, CasePolicy};

verus! {

/// Why text could not be parsed into a fixed-length buffer.
#[derive(Clone, Copy, Debug, PartialEq, Eq)]
pub enum HexArrayError {
    /// The text did not have exactly twice as many characters as the buffer
    /// has bytes.
    InvalidLength { expected: usize, encountered: usize },
    /// The pair of characters `msb`, `lsb` that starts at `index` is not hex.
    InvalidByte { msb: u8, lsb: u8, index: usize },
}

/// Why text could not be parsed into a variable-length buffer.
#[derive(Clone, Copy, Debug, PartialEq, Eq)]
pub enum HexVectorError {
    /// The text had an odd number of characters.
    InvalidLength { encountered: usize },
    /// The pair of characters `msb`, `lsb` that starts at `index` is not hex.
    InvalidByte { msb: u8, lsb: u8, index: usize },
}

/// A buffer whose length did not match.
#[derive(Clone, Copy, Debug, PartialEq, Eq)]
pub struct FromSliceError;

/// The two ways text can fail to be hex.
#[derive(Clone, Copy, Debug, PartialEq, Eq)]
pub enum FromStrError {
    InvalidLength,
    InvalidCharacter,
}

/// An error of kind `E` together with the input that caused it, so that the
/// caller can still report or retry with it.
#[derive(Debug)]
pub struct Error<T, E> {
    inner: T,
    kind: E,
}

impl<T, E: Copy> Error<T, E> {
    /// The input that the error is about.
    pub closed spec fn spec_inner(&self) -> T {
        self.inner
    }

    /// What went wrong.
    pub closed spec fn spec_kind(&self) -> E {
        self.kind
    }

    pub fn new(inner: T, kind: E) -> (r: Self)
        ensures
            r.spec_inner() == inner,
            r.spec_kind() == kind,
    {
        Error { inner, kind }
    }

    pub fn kind(&self) -> (r: E)
        ensures
            r == self.spec_kind(),
    {
        self.kind
    }

    pub fn inner(&self) -> (r: &T)
        ensures
            *r == self.spec_inner(),
    {
        &self.inner
    }

    pub fn into_inner(self) -> (r: T)
        ensures
            r == self.spec_inner(),
    {
        self.inner
    }
}

/// The successful result of a parse as the bytes it holds.
pub open spec fn bytes_of<T: View<V = Seq<u8>>, E>(r: Result<T, E>) -> Result<Seq<u8>, E> {
    match r {
        Ok(t) => Ok(t@),
        Err(e) => Err(e),
    }
}

/// `r` is what parsing `text` under `policy` into a buffer of `n` bytes
/// gives: the length is checked first, then the pairs from the left, and the
/// first pair that is not hex is reported.
pub open spec fn fixed_parse(
    text: Seq<u8>,
    n: int,
    policy: CasePolicy,
    r: Result<Seq<u8>, HexArrayError>,
) -> bool {
    match r {
        Ok(v) => text.len() == 2 * n && decode_text(text, policy) == Some(v),
        Err(HexArrayError::InvalidLength { expected, encountered }) => {
            &&& text.len() != 2 * n
            &&& expected == 2 * n
            &&& encountered == text.len()
        },
        Err(HexArrayError::InvalidByte { msb, lsb, index }) => {
            &&& text.len() == 2 * n
            &&& first_invalid_pair(text, policy, index as int)
            &&& msb == text[index as int]
            &&& lsb == text[index + 1]
        },
    }
}

/// `r` is what parsing `text` under `policy` into a growable buffer gives:
/// the length must be even, then the pairs are read from the left, and the
/// first pair that is not hex is reported.
pub open spec fn vector_parse(
    text: Seq<u8>,
    policy: CasePolicy,
    r: Result<Seq<u8>, HexVectorError>,
) -> bool {
    match r {
        Ok(v) => decode_text(text, policy) == Some(v),
        Err(HexVectorError::InvalidLength { encountered }) => {
            &&& text.len() % 2 == 1
            &&& encountered == text.len()
        },
        Err(HexVectorError::InvalidByte { msb, lsb, index }) => {
            &&& text.len() % 2 == 0
            &&& first_invalid_pair(text, policy, index as int)
            &&& msb == text[index as int]
            &&& lsb == text[index + 1]
        },
    }
}

} // verus!
