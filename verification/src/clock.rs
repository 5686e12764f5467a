//! Timestamps. The platform stores every instant as milliseconds since the
//! Unix epoch; the current time always arrives as an argument from the caller,
//! so every function here is deterministic.

use vstd::prelude::*;

verus! {

/// The largest timestamp the platform handles: the last millisecond of year
/// 9999, comfortably inside the range chrono can represent and format.
pub const MAX_TIMESTAMP_MS: i64 = 253_402_300_799_999;

/// The RFC 3339 text of the instant `ms` milliseconds after the Unix epoch.
pub uninterp spec fn rfc3339_of(ms: i64) -> Seq<char>;

/// Relies on chrono's `DateTime::from_timestamp_millis` and `to_rfc3339`:
/// within range the conversion succeeds and the text depends on the
/// millisecond value alone.
#[verifier::external_body]
pub fn format_rfc3339_millis(ms: i64) -> (r: String)
    requires
        0 <= ms <= MAX_TIMESTAMP_MS,
    ensures
        r@ == rfc3339_of(ms),
{
    chrono::DateTime::<chrono::Utc>::from_timestamp_millis(ms).unwrap().to_rfc3339()
}

} // verus!
