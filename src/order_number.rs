//! Human-readable order numbers `RP-YYYYMMDD-NNN`: the UTC date of the order
//! and its place among that day's orders. They are receipt labels, not keys:
//! two orders placed at once on one day may share a number.
use vstd::prelude::*;
use chrono::Datelike;
use crate::error::AppError;
use crate::models::Timestamp;
use crate::text::{padded, push_padded};

verus! {

/// The UTC calendar date (year, month, day) of a Unix time in seconds.
pub uninterp spec fn utc_calendar_date(seconds: int) -> (int, int, int);

/// Last second that orders can be numbered in: 9999-12-31T23:59:59Z.
pub const LAST_NUMBERED_SECOND: i64 = 253402300799;

/// The times whose UTC date the order number can show: from
/// 1970-01-01T00:00:00Z to 9999-12-31T23:59:59Z.
pub open spec fn in_numbering_range(seconds: int) -> bool {
    0 <= seconds <= LAST_NUMBERED_SECOND
}

/// Relies on `chrono::DateTime::from_timestamp` with the `Datelike`
/// accessors: the UTC date of the given second. chrono gives one for every
/// second it can hold, among them all seconds from 1970 to the end of 9999.
/// Months run from 1 to 12, days from 1 to 31.
#[verifier::external_body]
pub(crate) fn utc_date(seconds: i64) -> (r: Option<(i32, u32, u32)>)
    ensures
        r is Some || seconds < 0 || seconds > 253402300799,
        r matches Some(d) ==> (d.0 as int, d.1 as int, d.2 as int) == utc_calendar_date(
            seconds as int,
        ) && 1 <= d.1 <= 12 && 1 <= d.2 <= 31 && (0 <= seconds <= 253402300799 ==> 1970 <= d.0
            <= 9999),
{
    match chrono::DateTime::from_timestamp(seconds, 0) {
        Some(t) => Some((t.year(), t.month(), t.day())),
        None => None,
    }
}

/// A date as three integers.
pub open spec fn date_of(d: (i32, u32, u32)) -> (int, int, int) {
    (d.0 as int, d.1 as int, d.2 as int)
}

/// A date that the eight digits `YYYYMMDD` can show.
pub open spec fn date_fits_format(year: int, month: int, day: int) -> bool {
    0 <= year <= 9999 && 1 <= month <= 12 && 1 <= day <= 31
}

/// `RP-YYYYMMDD-`: what every order number of that date starts with.
pub open spec fn number_prefix(year: int, month: int, day: int) -> Seq<char> {
    "RP-"@ + padded(year as nat, 4) + padded(month as nat, 2) + padded(day as nat, 2) + "-"@
}

/// The order number that follows `prior_count` orders of the same date.
pub open spec fn order_number_text(year: int, month: int, day: int, prior_count: nat) -> Seq<
    char,
> {
    number_prefix(year, month, day) + padded(prior_count + 1, 3)
}

/// The prefix shared by the order numbers of a date, if the date fits the format.
pub fn order_number_prefix(year: i32, month: u32, day: u32) -> (r: Option<String>)
    ensures
        r is Some <==> date_fits_format(year as int, month as int, day as int),
        r matches Some(s) ==> s@ == number_prefix(year as int, month as int, day as int),
{
    if year < 0 || year > 9999 || month < 1 || month > 12 || day < 1 || day > 31 {
        return None;
    }
    let mut s = String::from_str("RP-");
    push_padded(&mut s, year as u64, 4);
    push_padded(&mut s, month as u64, 2);
    push_padded(&mut s, day as u64, 2);
    s.append("-");
    Some(s)
}

/// The order number after `prior_count` orders of the given date: the
/// sequence is `prior_count + 1`, zero-padded to three digits.
pub fn format_order_number(year: i32, month: u32, day: u32, prior_count: u64) -> (r: Option<
    String,
>)
    ensures
        r is Some <==> date_fits_format(year as int, month as int, day as int) && prior_count
            < u64::MAX,
        r matches Some(s) ==> s@ == order_number_text(
            year as int,
            month as int,
            day as int,
            prior_count as nat,
        ),
{
    if prior_count == u64::MAX {
        return None;
    }
    match order_number_prefix(year, month, day) {
        Some(mut s) => {
            push_padded(&mut s, prior_count + 1, 3);
            Some(s)
        },
        None => None,
    }
}

/// The UTC date of `now`, for the times orders can be numbered in.
pub fn order_date(now: Timestamp) -> (r: Option<(i32, u32, u32)>)
    ensures
        r is Some <==> in_numbering_range(now.seconds as int),
        r matches Some(d) ==> date_of(d) == utc_calendar_date(now.seconds as int)
            && date_fits_format(d.0 as int, d.1 as int, d.2 as int),
{
    if now.seconds < 0 || now.seconds > LAST_NUMBERED_SECOND {
        return None;
    }
    utc_date(now.seconds)
}

/// Why no order number could be had for a date.
pub open spec fn numbering_failure() -> Seq<char> {
    "Failed to generate order number: date outside the supported range"@
}

/// Why no order number could be had after so many orders.
pub open spec fn sequence_failure() -> Seq<char> {
    "Failed to generate order number: daily sequence exhausted"@
}

/// The order number for an order placed at `now`, after `prior_count`
/// orders of the same UTC date. Times outside the numbering range and an
/// exhausted sequence are internal errors.
pub fn generate_order_number(now: Timestamp, prior_count: u64) -> (r: Result<String, AppError>)
    ensures
        r is Ok <==> in_numbering_range(now.seconds as int) && prior_count < u64::MAX,
        r matches Ok(s) ==> ({
            let d = utc_calendar_date(now.seconds as int);
            s@ == order_number_text(d.0, d.1, d.2, prior_count as nat)
        }),
        !in_numbering_range(now.seconds as int) ==> (r matches Err(AppError::InternalError(m))
            && m@ == numbering_failure()),
        in_numbering_range(now.seconds as int) && prior_count == u64::MAX ==> (r matches Err(
            AppError::InternalError(m),
        ) && m@ == sequence_failure()),
{
    match order_date(now) {
        None => Err(
            AppError::InternalError(
                String::from_str(
                    "Failed to generate order number: date outside the supported range",
                ),
            ),
        ),
        Some((y, m, d)) => match format_order_number(y, m, d, prior_count) {
            Some(s) => Ok(s),
            None => Err(
                AppError::InternalError(
                    String::from_str("Failed to generate order number: daily sequence exhausted"),
                ),
            ),
        },
    }
}

} // verus!
