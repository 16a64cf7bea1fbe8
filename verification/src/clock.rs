use vstd::prelude::*;

verus! {

/// Readings of the system clock, carried as they are.
#[verifier::external_type_specification]
#[verifier::external_body]
pub struct ExSystemTime(std::time::SystemTime);

/// `SystemTime::now`: the clock's reading. Nothing is stated of it: any value
/// may come back, and two calls may give different values.
#[verifier::external_body]
fn system_now() -> std::time::SystemTime {
    std::time::SystemTime::now()
}

/// `SystemTime::duration_since` the Unix epoch; `None` where the reading lies
/// before the epoch. The span itself is not stated.
#[verifier::external_body]
fn since_epoch(t: &std::time::SystemTime) -> Option<std::time::Duration> {
    match t.duration_since(std::time::UNIX_EPOCH) {
        Ok(d) => Some(d),
        Err(_) => None,
    }
}

/// `Duration::as_millis`: the span in whole milliseconds; not stated.
#[verifier::external_body]
fn duration_millis(d: &std::time::Duration) -> u128 {
    d.as_millis()
}

/// `Duration::as_secs`: the span in whole seconds; not stated.
#[verifier::external_body]
fn duration_secs(d: &std::time::Duration) -> u64 {
    d.as_secs()
}

/// The time since the Unix epoch in milliseconds, cut to 64 bits; zero for a
/// clock set before the epoch.
pub(crate) fn unix_time_millis() -> u64 {
    match since_epoch(&system_now()) {
        Some(d) => {
            let ms = duration_millis(&d);
            #[verifier::truncate]
            (ms as u64)
        },
        None => 0,
    }
}

/// The time since the Unix epoch in whole seconds; zero for a clock set
/// before the epoch.
pub(crate) fn unix_time_secs() -> u64 {
    match since_epoch(&system_now()) {
        Some(d) => duration_secs(&d),
        None => 0,
    }
}

} // verus!
