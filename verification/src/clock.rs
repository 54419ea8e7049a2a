//! The two clock-dependent capabilities the scaffolder needs: today's
//! calendar month, and a timestamp rendered in the machine's local time zone.
//! Both depend on the environment, so their results are taken as given and
//! everything downstream is verified for every value they may return.

use vstd::prelude::*;
use chrono::Datelike;
use crate::date::YearMonth;

verus! {

/// Relies on `chrono::Local::now`, `chrono::NaiveDate` and the `Datelike`
/// accessors: the month of a civil date is between 1 and 12.  The year is
/// whatever the system clock says.
#[verifier::external_body]
pub(crate) fn now_ym() -> (r: (i32, u32))
    ensures
        1 <= r.1 <= 12,
{
    let today = chrono::Local::now().date_naive();
    (today.year(), today.month())
}

/// The instants this library renders as local-time text, in milliseconds
/// since the Unix epoch: chrono can represent the civil dates from the first
/// day of year -262143 through the last day of year 262142, and one day is
/// kept back at each end so that no local-time offset (always under a day)
/// can carry the instant out of that range.
pub open spec fn renderable_instant(millis: i64) -> bool {
    -8334601142400000 <= millis <= 8210266790399999
}

/// Whether an instant lies in the range this library renders.
pub fn instant_renderable(millis: i64) -> (r: bool)
    ensures
        r == renderable_instant(millis),
{
    -8334601142400000 <= millis && millis <= 8210266790399999
}

/// Relies on `chrono::DateTime::from_timestamp_millis`, `with_timezone` and
/// `format`: an instant in range renders in the local time zone as year,
/// month, day, time and offset (`%Y-%m-%dT%H:%M:%S%:z`).  Out-of-range
/// instants are kept out: a day beyond the range's ends chrono yields
/// nothing or, in an unfavourable time zone, would not render.  The rendered
/// text depends on the machine's time zone, so nothing is promised of it.
#[verifier::external_body]
pub(crate) fn local_timestamp(millis: i64) -> (r: Option<String>)
    requires
        renderable_instant(millis),
    ensures
        r is Some,
{
    match chrono::DateTime::from_timestamp_millis(millis) {
        Some(t) => Some(
            t.with_timezone(&chrono::Local).format("%Y-%m-%dT%H:%M:%S%:z").to_string(),
        ),
        None => None,
    }
}

/// A month from a year and month number: accepted exactly when the year can
/// appear in a six-digit diary file name and the month number is a calendar
/// month's.
pub fn month_from_parts(year: i32, month: u32) -> (r: Option<YearMonth>)
    ensures
        r is Some <==> (0 <= year <= 9999 && 1 <= month <= 12),
        r matches Some(ym) ==> ym.year == year && ym.month == month && ym.wf(),
{
    if 0 <= year && year <= 9999 && 1 <= month && month <= 12 {
        Some(YearMonth { year, month })
    } else {
        None
    }
}

/// Today's month by the system clock, or nothing when the clock's year
/// cannot appear in a six-digit diary file name.
pub fn current_month() -> (r: Option<YearMonth>)
    ensures
        r matches Some(ym) ==> ym.wf(),
{
    let (year, month) = now_ym();
    month_from_parts(year, month)
}

} // verus!
