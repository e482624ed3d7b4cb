//! The trusted boundary to the world outside the library: monotonic clocks
//! for segment ages, best-effort notification channels, and the wall-clock
//! timestamp embedded in segment filenames.
//!
//! Everything here is stated, not proved; the recorder is verified for
//! every value these items may produce.

use vstd::prelude::*;

verus! {

#[verifier::external_type_specification]
#[verifier::external_body]
pub struct ExInstant(std::time::Instant);

#[verifier::external_type_specification]
#[verifier::external_body]
#[verifier::reject_recursive_types(T)]
pub struct ExSender<T>(std::sync::mpsc::Sender<T>);

#[verifier::external_type_specification]
#[verifier::external_body]
#[verifier::reject_recursive_types(T)]
pub struct ExSendError<T>(std::sync::mpsc::SendError<T>);

/// Relies on `std::time::Instant::now`: an opaque reading of the monotonic
/// clock, taken when a segment's backend is constructed.
pub assume_specification[ std::time::Instant::now ]() -> std::time::Instant;

/// Relies on `std::time::Instant::elapsed`: the time since the instant was
/// taken. Nothing is assumed of the value; the finalize-or-delete decision
/// is verified for every reading.
pub assume_specification[ std::time::Instant::elapsed ](
    i: &std::time::Instant,
) -> std::time::Duration;

/// Relies on `std::time::Duration::as_secs`: the duration in whole seconds.
pub assume_specification[ std::time::Duration::as_secs ](d: &std::time::Duration) -> u64;

/// Relies on `std::sync::mpsc::Sender::send`: best-effort, non-blocking
/// delivery; on a disconnected channel the value is simply dropped, which
/// is all the notification stream needs.
pub assume_specification<T>[ std::sync::mpsc::Sender::<T>::send ](
    s: &std::sync::mpsc::Sender<T>,
    t: T,
) -> Result<(), std::sync::mpsc::SendError<T>>;

/// Relies on `chrono::Local::now` and its formatter: the local wall-clock
/// time rendered as the digits `YYYYMMDDHHMMSSmmm`. Nothing is assumed of
/// the value; filenames are stated relative to whatever string comes back.
#[verifier::external_body]
pub fn local_timestamp_string() -> String {
    chrono::Local::now().format("%Y%m%d%H%M%S%3f").to_string()
}

} // verus!
