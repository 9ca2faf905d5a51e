use vstd::prelude::*;

verus! {

/// A byte from `rand::random`, which draws it from the thread-local generator
/// that the operating system seeds. Nothing is claimed of the byte: any value
/// may come back, and two calls need not agree. The call takes no input; it
/// panics only where the operating system can give the generator no seed.
#[verifier::external_body]
pub(crate) fn random_byte() -> (byte: u8) {
    rand::random::<u8>()
}

} // verus!
