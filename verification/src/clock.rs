use vstd::prelude::*;

verus! {

#[verifier::external_type_specification]
#[verifier::external_body]
pub struct ExInstant(std::time::Instant);

/// Relies on std::time::Instant::now: an opaque reading of the monotonic
/// clock, taken immediately before a pattern's first unit of work.
#[verifier::external_body]
pub(crate) fn clock_start() -> std::time::Instant {
    std::time::Instant::now()
}

/// Relies on std::time::Instant::elapsed: the time since `start`, here in
/// whole microseconds, saturating at u64::MAX. Nothing is assumed of the
/// value: every rate the harness states holds for whatever elapsed time the
/// clock reported.
#[verifier::external_body]
pub(crate) fn clock_elapsed_micros(start: &std::time::Instant) -> u64 {
    let micros = start.elapsed().as_micros();
    if micros > u64::MAX as u128 {
        u64::MAX
    } else {
        micros as u64
    }
}

} // verus!
