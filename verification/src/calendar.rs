//! Calendar conversions. Two distinct conversions are kept apart on purpose:
//! the UTC conversion that keys month grouping and date cells, and the
//! local-timezone conversion that labels chart axis ticks.

use vstd::prelude::*;
use chrono::Datelike;
use chrono::TimeZone;
use crate::quote::MAX_TIMESTAMP;

verus! {

/// The civil (proleptic Gregorian, UTC) date of an epoch-second timestamp,
/// as (year, month, day). This names the result of the date library's
/// conversion; it is a function of the timestamp alone.
pub uninterp spec fn civil_of(ts: u64) -> (int, int, int);

/// Calendar year (UTC) of a timestamp.
pub open spec fn year_of(ts: u64) -> int {
    civil_of(ts).0
}

/// Calendar month (UTC) of a timestamp, 1 through 12.
pub open spec fn month_of(ts: u64) -> int {
    civil_of(ts).1
}

/// Day of month (UTC) of a timestamp, 1 through 31.
pub open spec fn day_of(ts: u64) -> int {
    civil_of(ts).2
}

/// Relies on chrono's `DateTime::<Utc>::from_timestamp` (documented to return
/// `Some` for every in-range second count, which `MAX_TIMESTAMP` guarantees)
/// and on `Datelike::year`/`month`/`day` (month in 1..=12, day in 1..=31).
#[verifier::external_body]
pub(crate) fn civil_from_timestamp(ts: u64) -> (r: (i32, u32, u32))
    requires
        ts <= MAX_TIMESTAMP,
    ensures
        civil_of(ts) == (r.0 as int, r.1 as int, r.2 as int),
        1970 <= r.0 <= 9999,
        1 <= r.1 <= 12,
        1 <= r.2 <= 31,
{
    let dt = chrono::DateTime::<chrono::Utc>::from_timestamp(ts as i64, 0).unwrap();
    (dt.year(), dt.month(), dt.day())
}

/// Relies on chrono's `Local::from_local_datetime` over the timestamp's UTC
/// calendar fields: when the local timezone maps those wall-clock fields to a
/// single instant, the resulting local date carries exactly those fields;
/// whether the mapping is single, ambiguous or void depends on the machine's
/// timezone, so nothing is promised about which variant comes back.
#[verifier::external_body]
pub(crate) fn local_civil_from_timestamp(ts: u64) -> (r: Option<(i32, u32, u32)>)
    requires
        ts <= MAX_TIMESTAMP,
    ensures
        r matches Some(c) ==> {
            &&& civil_of(ts) == (c.0 as int, c.1 as int, c.2 as int)
            &&& 1970 <= c.0 <= 9999
            &&& 1 <= c.1 <= 12
            &&& 1 <= c.2 <= 31
        },
{
    let naive = chrono::DateTime::<chrono::Utc>::from_timestamp(ts as i64, 0).unwrap().naive_utc();
    match chrono::Local.from_local_datetime(&naive) {
        chrono::MappedLocalTime::Single(dt) => Some((dt.year(), dt.month(), dt.day())),
        _ => None,
    }
}

/// The (month, year) grouping key of a timestamp, derived by UTC conversion.
pub fn get_month_and_year(timestamp: &u64) -> (r: (u32, i32))
    requires
        *timestamp <= MAX_TIMESTAMP,
    ensures
        r.0 == month_of(*timestamp),
        r.1 == year_of(*timestamp),
        1 <= r.0 <= 12,
        1970 <= r.1 <= 9999,
{
    let (y, m, _d) = civil_from_timestamp(*timestamp);
    (m, y)
}

/// English name of a month number; the empty string outside 1..=12.
pub open spec fn month_name_view(m: int) -> Seq<char> {
    if m == 1 {
        "January"@
    } else if m == 2 {
        "February"@
    } else if m == 3 {
        "March"@
    } else if m == 4 {
        "April"@
    } else if m == 5 {
        "May"@
    } else if m == 6 {
        "June"@
    } else if m == 7 {
        "July"@
    } else if m == 8 {
        "August"@
    } else if m == 9 {
        "September"@
    } else if m == 10 {
        "October"@
    } else if m == 11 {
        "November"@
    } else if m == 12 {
        "December"@
    } else {
        ""@
    }
}

/// English month name for a report group header.
pub fn month_number_to_name(month: u32) -> (r: &'static str)
    ensures
        r@ == month_name_view(month as int),
{
    match month {
        1 => "January",
        2 => "February",
        3 => "March",
        4 => "April",
        5 => "May",
        6 => "June",
        7 => "July",
        8 => "August",
        9 => "September",
        10 => "October",
        11 => "November",
        12 => "December",
        _ => "",
    }
}

} // verus!
