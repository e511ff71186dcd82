//! The random source that fresh payloads are drawn from.
//!
//! Nothing here is proved: each function hands one call to the `rand`
//! crate, and its contract says what that crate's source shows of the call.

use rand::rngs::{OsRng, SmallRng};
use rand::{Rng, RngCore, SeedableRng};
use vstd::prelude::*;

verus! {

/// `rand::rngs::SmallRng`: a generator, carried from one call to the next
/// as a value that nothing is known of.
#[verifier::external_type_specification]
#[verifier::external_body]
pub struct ExSmallRng(SmallRng);

/// `SmallRng::from_rng` on `OsRng`: a generator seeded by the operating
/// system, or nothing where the system gives no entropy. The call hands
/// the system's failure on as an error, which is dropped here. Nothing is
/// claimed of the generator, nor of when one comes.
#[verifier::external_body]
pub(crate) fn seeded() -> Option<SmallRng> {
    SmallRng::from_rng(OsRng).ok()
}

/// `Rng::gen_range` over `0..bound`: a number below `bound`. The call
/// panics on an empty range, which `bound > 0` leaves out. Which number
/// comes is open.
#[verifier::external_body]
pub(crate) fn below(rng: &mut SmallRng, bound: usize) -> (r: usize)
    requires
        bound > 0,
    ensures
        r < bound,
{
    rng.gen_range(0..bound)
}

/// `RngCore::fill_bytes`: overwrites every byte of `dest`. The call works
/// on the bytes in place, so as many are there after it as before. Which
/// bytes come is open.
#[verifier::external_body]
pub(crate) fn fill(rng: &mut SmallRng, dest: &mut Vec<u8>)
    ensures
        final(dest)@.len() == old(dest)@.len(),
{
    rng.fill_bytes(dest)
}

} // verus!
