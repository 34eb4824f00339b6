//! Fresh randomness.

use vstd::prelude::*;

verus! {

/// The error of the operating system's random number source.
#[verifier::external_type_specification]
#[verifier::external_body]
pub struct ExGetrandomError(getrandom::Error);

/// Fills a buffer by `getrandom::fill`. The buffer keeps its length; filling an
/// empty one always succeeds. Nothing is said of the bytes, which are random,
/// nor of when the system's source fails.
#[verifier::external_body]
pub(crate) fn fill_random(buf: &mut Vec<u8>) -> (r: Result<(), getrandom::Error>)
    ensures
        final(buf)@.len() == old(buf)@.len(),
        old(buf)@.len() == 0 ==> r is Ok,
{
    getrandom::fill(buf.as_mut_slice())
}

/// A buffer of fresh random bytes, or nothing where the source failed.
pub(crate) fn random_bytes(len: usize) -> (r: Option<Vec<u8>>)
    ensures
        r is Some ==> r->0@.len() == len,
        len == 0 ==> r is Some,
{
    let mut buf: Vec<u8> = Vec::new();
    while buf.len() < len
        invariant
            buf@.len() <= len,
        decreases len - buf@.len(),
    {
        buf.push(0);
    }
    match fill_random(&mut buf) {
        Ok(()) => Some(buf),
        Err(_error) => None,
    }
}

} // verus!
