//! WebRTC sessions, one `str0m::Rtc` per browser peer.

use vstd::prelude::*;

verus! {

#[verifier::external_type_specification]
#[verifier::external_body]
pub struct ExRtc(str0m::Rtc);

#[verifier::external_type_specification]
#[verifier::external_body]
pub struct ExInstant(std::time::Instant);

/// Reads the monotonic clock with `std::time::Instant::now`. Nothing is claimed of
/// the instant.
#[verifier::external_body]
fn instant_now() -> std::time::Instant {
    std::time::Instant::now()
}

/// Calls `str0m::Rtc::new`, which makes an instance with default settings whose
/// clock starts at `start`. Nothing is claimed of the instance; `str0m` panics where
/// its default configuration cannot be built (its crypto provider fails).
#[verifier::external_body]
fn rtc_starting_at(start: std::time::Instant) -> str0m::Rtc {
    str0m::Rtc::new(start)
}

/// A WebRTC instance with default settings whose clock starts now.
pub fn new_rtc() -> str0m::Rtc {
    rtc_starting_at(instant_now())
}

} // verus!
