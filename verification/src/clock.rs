//! The id that stamps a request: the time since the Unix epoch, in
//! nanoseconds.
use vstd::prelude::*;

verus! {

/// The system clock's readings.
#[verifier::external_type_specification]
#[verifier::external_body]
pub struct ExSystemTime(std::time::SystemTime);

/// Calls `std::time::SystemTime::now`. The reading depends on the clock;
/// nothing is stated of it.
#[verifier::external_body]
fn clock_now() -> std::time::SystemTime {
    std::time::SystemTime::now()
}

/// Calls `SystemTime::duration_since` with `UNIX_EPOCH`: the time from the
/// epoch to the reading, `None` when the reading lies before the epoch.
/// Nothing is stated of the duration.
#[verifier::external_body]
fn since_unix_epoch(t: std::time::SystemTime) -> Option<std::time::Duration> {
    match t.duration_since(std::time::UNIX_EPOCH) {
        Ok(d) => Some(d),
        Err(_) => None,
    }
}

/// Calls `Duration::as_secs`: the whole seconds of a duration. A duration
/// is opaque here; nothing more is stated of the count.
#[verifier::external_body]
fn duration_secs(d: &std::time::Duration) -> u64 {
    d.as_secs()
}

/// Calls `Duration::subsec_nanos`: the nanoseconds of a duration beyond its
/// whole seconds, which the documentation bounds below one billion.
#[verifier::external_body]
fn duration_subsec_nanos(d: &std::time::Duration) -> (r: u32)
    ensures
        r < 1_000_000_000,
{
    d.subsec_nanos()
}

/// The nanoseconds that a whole count of seconds and a count of further
/// nanoseconds make.
pub open spec fn nanos_of(secs: u64, subsec: u32) -> int {
    secs as int * 1_000_000_000 + subsec as int
}

/// One more than the largest count of nanoseconds that a duration holds.
pub open spec fn nanos_bound() -> int {
    (u64::MAX as int + 1) * 1_000_000_000
}

/// The id of a request from the time since the Unix epoch, given as whole
/// seconds and further nanoseconds (`None` when the clock reads a time
/// before the epoch): the total count of nanoseconds.
pub fn request_id_from(reading: Option<(u64, u32)>) -> (r: Option<u128>)
    ensures
        r == match reading {
            Some((s, n)) => Some(nanos_of(s, n) as u128),
            None => None::<u128>,
        },
        r matches Some(id) ==> reading matches Some((s, n)) && id == nanos_of(s, n),
{
    match reading {
        Some((secs, subsec)) => {
            assert(secs as u128 * 1_000_000_000 <= u64::MAX as u128 * 1_000_000_000) by (nonlinear_arith);
            Some(secs as u128 * 1_000_000_000 + subsec as u128)
        },
        None => None,
    }
}

/// The nanoseconds from the Unix epoch to now, or `None` when the clock
/// reads a time before the epoch.
pub fn generate_request_id() -> (r: Option<u128>)
    ensures
        r matches Some(id) ==> id < nanos_bound() && exists|s: u64, n: u32|
            n < 1_000_000_000 && id == #[trigger] nanos_of(s, n),
{
    let now = clock_now();
    let reading = match since_unix_epoch(now) {
        Some(d) => Some((duration_secs(&d), duration_subsec_nanos(&d))),
        None => None,
    };
    request_id_from(reading)
}

} // verus!
