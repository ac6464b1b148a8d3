//! Instants, the reference epoch of the message store, and the time window of
//! an export.
//!
//! The message store stamps every row with a signed count of nanoseconds since
//! the reference epoch, 2001-01-01T00:00:00Z.  The bounds of an export are
//! calendar dates or clock readings; this module turns both into such counts.
//! It does not read the clock itself: the caller hands the readings in.

use vstd::prelude::*;
use vstd::string::*;
use crate::error::AppError;
use crate::outside::{parse_day_number, parsed_day_number};

verus! {

/// Nanoseconds in a second.
pub const NANOS_PER_SECOND: i64 = 1_000_000_000;

/// Seconds in a day.
pub const SECONDS_PER_DAY: i64 = 86_400;

/// The day number of 1970-01-01, where 1 January of the year 1 is day 1.
pub const UNIX_EPOCH_DAY: i64 = 719_163;

/// The reference epoch, 2001-01-01T00:00:00Z, in Unix seconds.
pub const REFERENCE_EPOCH: i64 = 978_307_200;

/// The length of the default window, seven days, in seconds.
pub const DEFAULT_WINDOW_SECONDS: i64 = 604_800;

/// An instant in UTC: whole seconds since 1970-01-01T00:00:00Z and the
/// nanoseconds past that second.
#[derive(Clone, Copy, Debug, PartialEq, Eq, Structural)]
pub struct Timestamp {
    pub secs: i64,
    pub nanos: u32,
}

/// The window of an export: both bounds inclusive, in nanoseconds since the
/// reference epoch.  A window whose start lies after its end holds no instant.
#[derive(Clone, Copy, Debug, PartialEq, Eq, Structural)]
pub struct DateRange {
    pub start_ns: i64,
    pub end_ns: i64,
}

impl DateRange {
    /// Whether an offset lies in the window; both bounds count as inside.
    pub open spec fn spec_contains(self, date_ns: i64) -> bool {
        self.start_ns <= date_ns <= self.end_ns
    }

    /// Whether an offset lies in the window; both bounds count as inside.
    pub fn contains(&self, date_ns: i64) -> (inside: bool)
        ensures
            inside == self.spec_contains(date_ns),
    {
        self.start_ns <= date_ns && date_ns <= self.end_ns
    }
}

/// The distance in nanoseconds from the reference epoch to the instant
/// `secs`, `nanos`, as a mathematical integer.
pub open spec fn exact_offset(secs: int, nanos: int) -> int {
    (secs - REFERENCE_EPOCH) * NANOS_PER_SECOND + nanos
}

/// The offset as the message store can hold it: the exact distance where it
/// fits in 64 bits, and zero where it does not.
pub open spec fn stored_offset(exact: int) -> int {
    if i64::MIN <= exact <= i64::MAX {
        exact
    } else {
        0
    }
}

/// Unix seconds of midnight UTC on the day with number `day`.
pub open spec fn midnight_of_day(day: int) -> int {
    (day - UNIX_EPOCH_DAY) * SECONDS_PER_DAY
}

/// The Unix second in which the instant `date_ns` nanoseconds after the
/// reference epoch falls.
pub open spec fn spec_unix_seconds(date_ns: int) -> int {
    REFERENCE_EPOCH + date_ns / (NANOS_PER_SECOND as int)
}

impl Timestamp {
    /// The instant as nanoseconds since 1970-01-01T00:00:00Z.
    pub open spec fn unix_nanos(self) -> int {
        self.secs * NANOS_PER_SECOND + self.nanos
    }

    /// The offset of this instant from the reference epoch.
    pub open spec fn spec_offset_ns(self) -> int {
        stored_offset(exact_offset(self.secs as int, self.nanos as int))
    }

    /// The offset, from the reference epoch, of the instant seven days before
    /// this one.
    pub open spec fn spec_week_before_offset_ns(self) -> int {
        stored_offset(exact_offset(self.secs - DEFAULT_WINDOW_SECONDS, self.nanos as int))
    }

    /// Midnight UTC on the day with number `day`.
    pub fn midnight(day: i32) -> (t: Timestamp)
        ensures
            t.secs == midnight_of_day(day as int),
            t.nanos == 0,
    {
        Timestamp { secs: (day as i64 - UNIX_EPOCH_DAY) * SECONDS_PER_DAY, nanos: 0 }
    }

    /// Nanoseconds from the reference epoch to this instant; zero where the
    /// count does not fit in 64 bits.
    pub fn offset_ns(&self) -> (ns: i64)
        ensures
            ns == self.spec_offset_ns(),
    {
        clamp_offset(self.secs as i128, self.nanos)
    }

    /// Nanoseconds from the reference epoch to the instant seven days before
    /// this one; zero where the count does not fit in 64 bits.
    pub fn week_before_offset_ns(&self) -> (ns: i64)
        ensures
            ns == self.spec_week_before_offset_ns(),
    {
        clamp_offset(self.secs as i128 - DEFAULT_WINDOW_SECONDS as i128, self.nanos)
    }
}

/// The stored offset of the instant `secs`, `nanos`, for any second count that
/// the difference of two 64-bit values can reach.
fn clamp_offset(secs: i128, nanos: u32) -> (ns: i64)
    requires
        -0x1_0000_0000_0000_0000 <= secs <= 0x1_0000_0000_0000_0000,
    ensures
        ns == stored_offset(exact_offset(secs as int, nanos as int)),
{
    let since_epoch: i128 = secs - REFERENCE_EPOCH as i128;
    assert(-0x1_0000_0000_0000_0000_0000_0000 <= since_epoch * NANOS_PER_SECOND
        <= 0x1_0000_0000_0000_0000_0000_0000) by (nonlinear_arith)
        requires
            -0x2_0000_0000_0000_0000 <= since_epoch <= 0x2_0000_0000_0000_0000,
            NANOS_PER_SECOND == 1_000_000_000,
    ;
    let exact: i128 = since_epoch * (NANOS_PER_SECOND as i128) + nanos as i128;
    if i64::MIN as i128 <= exact && exact <= i64::MAX as i128 {
        exact as i64
    } else {
        0
    }
}

/// The Unix second in which a stored offset falls: the sub-second part is
/// dropped, towards the past for offsets before the epoch too.
pub fn unix_seconds(date_ns: i64) -> (secs: i64)
    ensures
        secs == spec_unix_seconds(date_ns as int),
{
    let whole: i64 = if date_ns >= 0 {
        date_ns / NANOS_PER_SECOND
    } else {
        let back: i64 = (-(date_ns + 1)) / NANOS_PER_SECOND;
        -back - 1
    };
    REFERENCE_EPOCH + whole
}

/// The form in which a date argument is written: year, month and day.
pub open spec fn date_format() -> Seq<char> {
    "%Y-%m-%d"@
}

/// The day that a date argument names, or `None` where it is malformed.
pub open spec fn day_of(date_str: Seq<char>) -> Option<int> {
    parsed_day_number(date_str, date_format())
}

/// The complaint about a malformed date argument: it quotes the argument and
/// names the expected form.
pub open spec fn invalid_date_message(date_str: Seq<char>) -> Seq<char> {
    "Invalid date format: "@ + date_str + ". Expected YYYY-MM-DD"@
}

/// The offset, from the reference epoch, of midnight UTC on the day with
/// number `day`.
pub open spec fn midnight_offset(day: int) -> int {
    stored_offset(exact_offset(midnight_of_day(day), 0))
}

/// What a date argument stands for, given the day that was read from it:
/// midnight UTC on that day, or, where no day could be read, an argument error
/// that carries the argument.
pub fn date_from_day(date_str: &str, day: Option<i32>) -> (date: Result<Timestamp, AppError>)
    ensures
        date is Ok <==> day is Some,
        date matches Ok(t) ==> t.secs == midnight_of_day(day->0 as int) && t.nanos == 0,
        date matches Err(e) ==> e matches AppError::Args(msg) && msg@ == invalid_date_message(
            date_str@,
        ),
{
    match day {
        Some(day) => Ok(Timestamp::midnight(day)),
        None => {
            let msg = String::from_str("Invalid date format: ").concat(date_str).concat(
                ". Expected YYYY-MM-DD",
            );
            Err(AppError::Args(msg))
        },
    }
}

/// Reads a date argument, written as year, month and day, as midnight UTC on
/// that calendar day.
///
/// A malformed argument is an argument error that carries the argument.
pub fn parse_date(date_str: &str) -> (parsed: Result<Timestamp, AppError>)
    ensures
        parsed is Ok <==> day_of(date_str@) is Some,
        parsed matches Ok(t) ==> t.secs == midnight_of_day(day_of(date_str@)->0) && t.nanos == 0,
        parsed matches Err(e) ==> e matches AppError::Args(msg) && msg@ == invalid_date_message(
            date_str@,
        ),
{
    let day = match parse_day_number(date_str, "%Y-%m-%d") {
        Ok(day) => Some(day),
        Err(_) => None,
    };
    date_from_day(date_str, day)
}

/// Whether a date argument, if given, is well formed.
pub open spec fn date_is_valid(date: Option<&str>) -> bool {
    date matches Some(text) ==> day_of(text@) is Some
}

/// Resolves the two optional date arguments into the window of the export.
///
/// A date that is given stands for midnight UTC on that day.  A missing start
/// is seven days before `now_for_start`, a missing end is `now_for_end`: the
/// caller reads the clock once for each bound and hands both readings in.  A
/// reading is not looked at where its date is given.  The start is looked at
/// first, so of two malformed dates the start is the one reported.  Nothing
/// asks that the start lie before the end.
pub fn resolve_date_range(
    start_date: Option<&str>,
    end_date: Option<&str>,
    now_for_start: Timestamp,
    now_for_end: Timestamp,
) -> (resolved: Result<DateRange, AppError>)
    ensures
        resolved is Ok <==> date_is_valid(start_date) && date_is_valid(end_date),
        resolved matches Err(e) ==> e matches AppError::Args(msg) && msg@ == invalid_date_message(
            if date_is_valid(start_date) {
                end_date->0@
            } else {
                start_date->0@
            },
        ),
        resolved matches Ok(range) ==> {
            &&& range.start_ns == (match start_date {
                Some(text) => midnight_offset(day_of(text@)->0),
                None => now_for_start.spec_week_before_offset_ns(),
            })
            &&& range.end_ns == (match end_date {
                Some(text) => midnight_offset(day_of(text@)->0),
                None => now_for_end.spec_offset_ns(),
            })
        },
{
    let start_ns: i64 = match start_date {
        Some(text) => match parse_date(text) {
            Ok(t) => t.offset_ns(),
            Err(e) => {
                return Err(e);
            },
        },
        None => now_for_start.week_before_offset_ns(),
    };
    let end_ns: i64 = match end_date {
        Some(text) => match parse_date(text) {
            Ok(t) => t.offset_ns(),
            Err(e) => {
                return Err(e);
            },
        },
        None => now_for_end.offset_ns(),
    };
    Ok(DateRange { start_ns, end_ns })
}

/// Whether the default window taken from the two clock readings comes out
/// inverted although the readings are in order: one bound has overflowed to
/// zero while the other has not and lies beyond zero.
pub open spec fn default_window_collapses(now_for_start: Timestamp, now_for_end: Timestamp) -> bool {
    let start = exact_offset(
        now_for_start.secs - DEFAULT_WINDOW_SECONDS,
        now_for_start.nanos as int,
    );
    let end = exact_offset(now_for_end.secs as int, now_for_end.nanos as int);
    ||| start < i64::MIN && i64::MIN <= end < 0
    ||| end > i64::MAX && 0 < start <= i64::MAX
}

/// Whether both bounds of the default window taken from the two clock readings
/// fit in 64 bits, so that neither is replaced by zero.
pub open spec fn default_window_fits(now_for_start: Timestamp, now_for_end: Timestamp) -> bool {
    &&& i64::MIN <= exact_offset(
        now_for_start.secs - DEFAULT_WINDOW_SECONDS,
        now_for_start.nanos as int,
    )
    &&& exact_offset(now_for_end.secs as int, now_for_end.nanos as int) <= i64::MAX
}

/// With neither date given, the window does not end before it starts: if the
/// reading taken for the start is not later than the one taken for the end, the
/// resolved start is at most the resolved end.
///
/// This fails only where a bound overflows: it holds of exactly the ordered
/// readings for which `default_window_collapses` is false.
pub proof fn lemma_default_window_is_ordered(now_for_start: Timestamp, now_for_end: Timestamp)
    requires
        now_for_start.unix_nanos() <= now_for_end.unix_nanos(),
    ensures
        now_for_start.spec_week_before_offset_ns() <= now_for_end.spec_offset_ns()
            <==> !default_window_collapses(now_for_start, now_for_end),
{
}

/// Two readings in order whose bounds both fit in 64 bits, as all readings
/// between the years 1709 and 2292 do, give a default window whose start is
/// at most its end.
pub proof fn lemma_default_window_that_fits_is_ordered(
    now_for_start: Timestamp,
    now_for_end: Timestamp,
)
    requires
        now_for_start.unix_nanos() <= now_for_end.unix_nanos(),
        default_window_fits(now_for_start, now_for_end),
    ensures
        now_for_start.spec_week_before_offset_ns() <= now_for_end.spec_offset_ns(),
{
    lemma_default_window_is_ordered(now_for_start, now_for_end);
}

/// One reading taken for both bounds gives a window of exactly seven days,
/// where both bounds fit in 64 bits.
pub proof fn lemma_default_window_is_seven_days(now: Timestamp)
    requires
        default_window_fits(now, now),
    ensures
        now.spec_offset_ns() - now.spec_week_before_offset_ns() == DEFAULT_WINDOW_SECONDS
            * NANOS_PER_SECOND,
{
    assert((now.secs - REFERENCE_EPOCH) * NANOS_PER_SECOND - (now.secs - DEFAULT_WINDOW_SECONDS
        - REFERENCE_EPOCH) * NANOS_PER_SECOND == DEFAULT_WINDOW_SECONDS * NANOS_PER_SECOND)
        by (nonlinear_arith);
}

} // verus!
