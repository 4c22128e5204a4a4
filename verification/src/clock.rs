//! The machine's clocks.
//!
//! Nothing is known of a reading but where it comes from: the contracts of the library say which
//! of its values a clock gave, and from which moment an interval was measured.
use std::time::{Instant, SystemTime, UNIX_EPOCH};
use vstd::prelude::*;

verus! {

/// A reading of the monotonic clock.
#[verifier::external_type_specification]
#[verifier::external_body]
pub struct ExInstant(std::time::Instant);

/// The monotonic clock gave that reading.
pub open(crate) spec fn clock_gave(reading: Instant) -> bool {
    call_ensures(instant_now, (), reading)
}

/// The monotonic clock measured that many nanoseconds since an earlier reading.
pub open(crate) spec fn clock_measured(since: Instant, elapsed: u128) -> bool {
    call_ensures(elapsed_nanos, (&since,), elapsed)
}

/// The machine's calendar clock showed that moment, in nanoseconds after the Unix epoch.
pub open(crate) spec fn calendar_showed(unix_nanos: i128) -> bool {
    call_ensures(system_nanos, (), unix_nanos)
}

/// `std::time::Instant::now`: a reading of the monotonic clock. Nothing is claimed of it.
#[verifier::external_body]
pub(crate) fn instant_now() -> Instant {
    Instant::now()
}

/// `std::time::Instant::elapsed`, in nanoseconds: how long ago `since` was read. Nothing is
/// claimed of it.
#[verifier::external_body]
pub(crate) fn elapsed_nanos(since: &Instant) -> u128 {
    since.elapsed().as_nanos()
}

/// `std::time::SystemTime::now`, in nanoseconds after the Unix epoch, negative before it.
/// Nothing is claimed of it.
#[verifier::external_body]
pub(crate) fn system_nanos() -> i128 {
    match SystemTime::now().duration_since(UNIX_EPOCH) {
        Ok(after) => after.as_nanos() as i128,
        Err(before) => -(before.duration().as_nanos() as i128),
    }
}

/// Readings and intervals are those that the clocks themselves gave.
pub(crate) proof fn readings_come_from_the_clocks(reading: Instant, elapsed: u128, nanos: i128)
    ensures
        clock_gave(reading) <==> call_ensures(instant_now, (), reading),
        clock_measured(reading, elapsed) <==> call_ensures(elapsed_nanos, (&reading,), elapsed),
        calendar_showed(nanos) <==> call_ensures(system_nanos, (), nanos),
{
}

} // verus!
