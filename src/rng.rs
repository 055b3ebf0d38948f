use rand::Rng;
use vstd::prelude::*;

verus! {

/// Relies on `rand::thread_rng` and `Rng::gen::<u8>` (rand 0.8): any byte
/// may come back, so nothing is promised of it. `thread_rng` panics only when
/// the operating system's entropy source cannot be read.
#[verifier::external_body]
pub(crate) fn random_byte() -> (r: u8) {
    rand::thread_rng().gen::<u8>()
}

} // verus!
