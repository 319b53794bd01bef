//! The calls into std and into `rand` that the library relies on without
//! proof, each behind a contract.
use vstd::prelude::*;

verus! {

/// Relies on `String::push`: the character is appended at the end.
#[verifier::external_body]
pub(crate) fn push_char(s: &mut String, c: char)
    ensures
        final(s)@ == old(s)@.push(c),
{
    s.push(c)
}

/// Relies on `TryFrom<Vec<T>> for Box<[T; N]>`: a vector of exactly `N`
/// elements becomes a boxed array holding the same elements, in place.
#[verifier::external_body]
pub(crate) fn boxed_array<const N: usize>(v: Vec<u8>) -> (r: Box<[u8; N]>)
    requires
        v@.len() == N,
    ensures
        r@ == v@,
{
    let r: Result<Box<[u8; N]>, Vec<u8>> = v.try_into();
    r.unwrap()
}

/// Relies on `rand::random`: one byte from the thread-local generator.
/// Nothing is known of its value.
#[verifier::external_body]
pub(crate) fn random_byte() -> u8 {
    rand::random()
}

} // verus!
