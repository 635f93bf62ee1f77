//! The random number source of the game and observer examples: the
//! thread-local generator of the `rand` crate, behind two trusted functions.

use rand::rngs::ThreadRng;
use rand::Rng;
use vstd::prelude::*;

verus! {

/// `rand::rngs::ThreadRng`, a handle to the thread-local generator. Nothing
/// is known of what it holds.
#[verifier::external_type_specification]
#[verifier::external_body]
pub struct ExThreadRng(ThreadRng);

/// `<ThreadRng as Clone>::clone`: another handle to the same generator.
/// Nothing is claimed of the handle.
pub assume_specification[ <ThreadRng as Clone>::clone ](rng: &ThreadRng) -> (other: ThreadRng)
;

/// `rand::thread_rng`: a handle to the generator of the current thread.
/// Nothing is claimed of the handle. The first call in a thread seeds the
/// generator from the operating system, and stops the program where the
/// system gives no entropy; no argument decides that.
#[verifier::external_body]
pub(crate) fn thread_rng() -> ThreadRng {
    rand::thread_rng()
}

/// `Rng::gen_range` on an inclusive range of `u32`: some number between
/// `low` and `high`, both included. The call panics on an empty range, so
/// `low <= high` is required. Which number comes back is not determined.
/// The generator is seeded anew from the operating system from time to
/// time, and stops the program where the system gives no entropy; no
/// argument decides that, so no `requires` can leave it out.
#[verifier::external_body]
pub(crate) fn gen_range_inclusive(rng: &mut ThreadRng, low: u32, high: u32) -> (n: u32)
    requires
        low <= high,
    ensures
        low <= n <= high,
{
    rng.gen_range(low..=high)
}

} // verus!
