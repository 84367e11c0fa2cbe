//! The only points where the library touches the machine: fresh random
//! identifiers and the wall clock. Nothing is promised of these results —
//! they depend on chance and on the time of the call — so every caller
//! states what holds of its result whatever came back.

use vstd::prelude::*;

verus! {

/// Relies on `rand::random::<u128>()`: a fresh random value for a trace
/// id. Its only failure mode is a panic if the operating system's random
/// source fails when the thread-local generator is (re)seeded — an
/// environmental resource failure, like running out of memory, with no
/// input to exclude.
#[verifier::external_body]
pub(crate) fn random_u128() -> u128 {
    rand::random::<u128>()
}

/// Relies on `rand::random::<u64>()`: a fresh random value for a span id.
/// Same failure mode as `random_u128`: a panic only if the operating
/// system's random source fails at (re)seeding.
#[verifier::external_body]
pub(crate) fn random_u64() -> u64 {
    rand::random::<u64>()
}

/// Relies on `std::time::SystemTime::now`: the current wall-clock time,
/// converted to microseconds since the Unix epoch (0 before the epoch,
/// saturated at `u64::MAX` far after it).
#[verifier::external_body]
pub(crate) fn now_micros() -> u64 {
    match std::time::SystemTime::now().duration_since(std::time::UNIX_EPOCH) {
        Ok(d) => {
            let us = d.as_micros();
            if us > u64::MAX as u128 {
                u64::MAX
            } else {
                us as u64
            }
        },
        Err(_) => 0,
    }
}

} // verus!
