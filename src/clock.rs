//! The acceptance time written into disclosures: one day before now, in
//! RFC 3339 form, UTC, whole seconds, with a `Z` suffix.
use vstd::prelude::*;

verus! {

/// The RFC 3339 text (UTC, whole seconds, `Z` suffix) of the instant `secs`
/// seconds after the Unix epoch, as chrono writes it.
pub uninterp spec fn rfc3339_utc(secs: int) -> Seq<char>;

pub const SECONDS_PER_DAY: i64 = 86400;

/// The last second of the year 9999, in seconds since the Unix epoch.
pub const LAST_SECOND_OF_9999: i64 = 253402300799;

/// Relies on chrono's `Utc::now().timestamp()`: the current time in whole
/// seconds since the Unix epoch. `Utc::now` panics on a clock set before the
/// epoch, so a returned value is never negative.
#[verifier::external_body]
fn now_seconds() -> (r: i64)
    ensures
        0 <= r,
{
    chrono::Utc::now().timestamp()
}

/// Relies on chrono's `DateTime::<Utc>::from_timestamp(secs, 0)`, which is
/// `None` only for an instant outside chrono's range (far wider than the
/// years 1970 to 9999), and on `to_rfc3339_opts(SecondsFormat::Secs, true)`
/// for the text.
#[verifier::external_body]
fn format_utc_seconds(secs: i64) -> (r: Option<String>)
    ensures
        0 <= secs <= LAST_SECOND_OF_9999 ==> r is Some,
        r matches Some(s) ==> s@ == rfc3339_utc(secs as int),
{
    match chrono::DateTime::<chrono::Utc>::from_timestamp(secs, 0) {
        Some(t) => Some(t.to_rfc3339_opts(chrono::SecondsFormat::Secs, true)),
        None => None,
    }
}

/// What the acceptance time for a run at `now` is: present when one day
/// before `now` falls in the years 1970 to 9999, and then the text of that
/// instant.
pub open spec fn acceptance_for(now: int, r: Option<String>) -> bool {
    &&& (SECONDS_PER_DAY <= now <= LAST_SECOND_OF_9999 + SECONDS_PER_DAY ==> r is Some)
    &&& (r matches Some(s) ==> s@ == rfc3339_utc(now - SECONDS_PER_DAY))
}

/// The acceptance time for a run at `now` (seconds since the Unix epoch):
/// the instant one day earlier, formatted; `None` when that instant cannot
/// be represented.
pub fn accepted_at(now: i64) -> (r: Option<String>)
    ensures
        acceptance_for(now as int, r),
        now < i64::MIN + SECONDS_PER_DAY ==> r is None,
{
    if now < i64::MIN + SECONDS_PER_DAY {
        None
    } else {
        format_utc_seconds(now - SECONDS_PER_DAY)
    }
}

/// The acceptance time for a run happening now: as `accepted_at` gives it
/// for the current time, which is not before the Unix epoch.
pub fn accepted_at_now() -> (r: Option<String>)
    ensures
        exists|now: int| 0 <= now && #[trigger] acceptance_for(now, r),
{
    let now = now_seconds();
    let r = accepted_at(now);
    assert(acceptance_for(now as int, r));
    r
}

} // verus!
