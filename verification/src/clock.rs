//! The current time, as chrono reports it, in the forms that the library
//! writes.

use vstd::prelude::*;

verus! {

/// How many digits of the second's fraction a time stamp carries.
#[derive(Clone, Copy, Debug, PartialEq, Eq)]
pub enum SecondsPrecision {
    /// None: whole seconds.
    Secs,
    /// Three.
    Millis,
    /// Six.
    Micros,
    /// Nine.
    Nanos,
    /// None, three, six or nine, as many as the time needs.
    AutoSi,
}

/// The pattern of the stamp in the names of snapshot files and backups:
/// year, month and day, a dash, hour, minute and second.
pub open spec fn file_stamp_pattern() -> Seq<char> {
    "%Y%m%d-%H%M%S"@
}

/// `Utc::now()` rendered by `DateTime::to_rfc3339_opts` with the given
/// precision and, where `use_z` holds, `Z` for the zone. The result depends
/// on the clock, so nothing is claimed of it. `Utc::now()` panics where the
/// system clock is set before 1970.
#[verifier::external_body]
fn utc_now_rfc3339(precision: SecondsPrecision, use_z: bool) -> String {
    let format = match precision {
        SecondsPrecision::Secs => chrono::SecondsFormat::Secs,
        SecondsPrecision::Millis => chrono::SecondsFormat::Millis,
        SecondsPrecision::Micros => chrono::SecondsFormat::Micros,
        SecondsPrecision::Nanos => chrono::SecondsFormat::Nanos,
        SecondsPrecision::AutoSi => chrono::SecondsFormat::AutoSi,
    };
    chrono::Utc::now().to_rfc3339_opts(format, use_z)
}

/// `Utc::now()` as `DateTime::timestamp_millis` counts it. The result depends
/// on the clock, so nothing is claimed of it. `Utc::now()` panics where the
/// system clock is set before 1970.
#[verifier::external_body]
pub(crate) fn now_timestamp_millis() -> i64 {
    chrono::Utc::now().timestamp_millis()
}

/// `Utc::now()` rendered by `DateTime::format` with `pattern`. The result
/// depends on the clock, so nothing is claimed of it. Rendering panics on a
/// pattern that chrono does not know, so only the file stamp pattern is
/// taken. `Utc::now()` panics where the system clock is set before 1970.
#[verifier::external_body]
fn utc_now_formatted(pattern: &str) -> String
    requires
        pattern@ == file_stamp_pattern(),
{
    chrono::Utc::now().format(pattern).to_string()
}

/// The current time as the library stamps stories, manifests and
/// snapshots: RFC 3339 in UTC, whole seconds, `Z` for the zone.
pub(crate) fn now_rfc3339() -> String {
    utc_now_rfc3339(SecondsPrecision::Secs, true)
}

/// The current time as the library stamps file names.
pub(crate) fn now_file_stamp() -> String {
    utc_now_formatted("%Y%m%d-%H%M%S")
}

} // verus!
