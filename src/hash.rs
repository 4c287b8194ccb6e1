use vstd::prelude::*;

verus! {

/// Relies on fxhash's `hash32`: a fast, unseeded 32-bit hash of the string.
/// It reads the bytes in the machine's byte order, so its value is not the
/// same on every machine, and nothing is stated of it.
#[verifier::external_body]
pub fn hash(text: &str) -> u32 {
    fxhash::hash32(text)
}

} // verus!
