//! The source of randomness.

use vstd::prelude::*;

verus! {

/// Draws 64 random bits from the generator of the current thread.
///
/// Calls `rand::random::<u64>()`, which asks the thread-local generator for
/// its next 64 bits. Nothing is claimed of the value: two calls may return
/// anything. The generator is seeded from the operating system on its first
/// use in a thread, and the call panics if the system has no entropy to give.
#[verifier::external_body]
pub(crate) fn random_u64() -> u64 {
    rand::random::<u64>()
}

} // verus!
