//! Time stamps of a local date and time.

use vstd::prelude::*;
use crate::decimal::{decimal_digits, padded_decimal};
use crate::pathname::opt_view;

verus! {

/// A local date and time, field by field as chrono reports them.
#[derive(Clone, Copy, Debug, PartialEq, Eq, Structural)]
pub struct LocalFields {
    /// The proleptic Gregorian year.
    pub year: i32,
    /// The month, 1 to 12.
    pub month: u32,
    /// The day of the month, 1 to 31.
    pub day: u32,
    /// The hour, 0 to 23.
    pub hour: u32,
    /// The minute, 0 to 59.
    pub minute: u32,
    /// The second, 0 to 59.
    pub second: u32,
    /// The nanoseconds past the second; 1_000_000_000 and more in a leap second.
    pub nanosecond: u32,
}

impl LocalFields {
    /// Each field lies in the range that chrono documents for it.
    pub open spec fn in_range(self) -> bool {
        &&& 1 <= self.month <= 12
        &&& 1 <= self.day <= 31
        &&& self.hour < 24
        &&& self.minute < 60
        &&& self.second < 60
        &&& self.nanosecond < 2_000_000_000
    }

    /// The fields name a date and time that chrono can hold: a year in
    /// -262143..=262142, a day that the month has in that year of the
    /// proleptic Gregorian calendar, a time of day, and a nanosecond count of
    /// a second or more only in a leap second (second 59).
    pub open spec fn is_date_time(self) -> bool {
        &&& -262143 <= self.year <= 262142
        &&& self.in_range()
        &&& self.day <= days_in_month(self.year as int, self.month as int)
        &&& (self.nanosecond >= 1_000_000_000 ==> self.second == 59)
    }

    /// The fields as a tuple of plain integers.
    pub open spec fn as_tuple(self) -> (i32, u32, u32, u32, u32, u32, u32) {
        (self.year, self.month, self.day, self.hour, self.minute, self.second, self.nanosecond)
    }
}

/// A leap year of the proleptic Gregorian calendar.
pub open spec fn is_leap_year(year: int) -> bool {
    year % 4 == 0 && (year % 100 != 0 || year % 400 == 0)
}

/// The number of days of a month.
pub open spec fn days_in_month(year: int, month: int) -> int {
    if month == 2 {
        if is_leap_year(year) { 29 } else { 28 }
    } else if month == 4 || month == 6 || month == 9 || month == 11 {
        30
    } else {
        31
    }
}

/// The text that chrono's `NaiveDateTime::format` writes for the date and time
/// `fields` under the strftime-style specification `fmt`; `None` where the
/// fields are no date and time or chrono reports a formatting error.
pub uninterp spec fn chrono_rendering(
    fields: (i32, u32, u32, u32, u32, u32, u32),
    fmt: Seq<char>,
) -> Option<Seq<char>>;

/// `%Y`: the year zero-padded to four digits, with a sign outside 0..=9999.
pub open spec fn year_text(year: int) -> Seq<char> {
    if 0 <= year <= 9999 {
        padded_decimal(year as nat, 4)
    } else if year > 9999 {
        seq!['+'] + decimal_digits(year as nat)
    } else {
        seq!['-'] + padded_decimal((-year) as nat, 4)
    }
}

/// `%S`: the second, 60 during a leap second, zero-padded to two digits.
pub open spec fn second_text(f: LocalFields) -> Seq<char> {
    padded_decimal((f.second + f.nanosecond / 1_000_000_000) as nat, 2)
}

/// The text of `%Y%m%d-%H%M%S` for a date and time.
pub open spec fn compact_stamp_text(f: LocalFields) -> Seq<char> {
    year_text(f.year as int) + padded_decimal(f.month as nat, 2) + padded_decimal(f.day as nat, 2)
        + seq!['-'] + padded_decimal(f.hour as nat, 2) + padded_decimal(f.minute as nat, 2)
        + second_text(f)
}

/// The text of `%Y-%m-%d %H:%M:%S%.3f` for a date and time.
pub open spec fn long_stamp_text(f: LocalFields) -> Seq<char> {
    year_text(f.year as int) + seq!['-'] + padded_decimal(f.month as nat, 2) + seq!['-']
        + padded_decimal(f.day as nat, 2) + seq![' '] + padded_decimal(f.hour as nat, 2)
        + seq![':'] + padded_decimal(f.minute as nat, 2) + seq![':'] + second_text(f)
        + seq!['.'] + padded_decimal(((f.nanosecond / 1_000_000) % 1000) as nat, 3)
}

/// Builds the chrono date and time of `f` (`NaiveDate::from_ymd_opt`,
/// `and_hms_nano_opt`) and writes it with `NaiveDateTime::format` under `fmt`
/// (`DelayedFormat::write_to`). Claims that the result is `chrono_rendering`
/// of the fields and the specification, and, for the two specifications this
/// library uses, what chrono documents: the date and time are built exactly
/// when the fields name one (`from_ymd_opt` refuses an out-of-range year and
/// an invalid month or day, `and_hms_nano_opt` an invalid time), the numeric
/// and fractional-second items always write, and the text is the one its
/// strftime table gives for `%Y`, `%m`, `%d`, `%H`, `%M`, `%S` and `%.3f`.
#[verifier::external_body]
fn render_fields(f: &LocalFields, fmt: &str) -> (r: Option<String>)
    ensures
        opt_view(r) == chrono_rendering(f.as_tuple(), fmt@),
        fmt@ == "%Y%m%d-%H%M%S"@ ==> (r is Some <==> f.is_date_time()),
        fmt@ == "%Y-%m-%d %H:%M:%S%.3f"@ ==> (r is Some <==> f.is_date_time()),
        fmt@ == "%Y%m%d-%H%M%S"@ ==> (r matches Some(s) ==> s@ == compact_stamp_text(*f)),
        fmt@ == "%Y-%m-%d %H:%M:%S%.3f"@ ==> (r matches Some(s) ==> s@ == long_stamp_text(*f)),
{
    let date = chrono::NaiveDate::from_ymd_opt(f.year, f.month, f.day)?;
    let stamp = date.and_hms_nano_opt(f.hour, f.minute, f.second, f.nanosecond)?;
    let mut out = String::new();
    stamp.format(fmt).write_to(&mut out).ok()?;
    Some(out)
}

/// Time stamps used in the names of archives and staging directories.
pub struct Util {}

impl Util {
    /// The local date and time `now` as `%Y-%m-%d %H:%M:%S%.3f`; `None` when
    /// the fields name no date and time.
    pub fn timestamp0(now: &LocalFields) -> (r: Option<String>)
        ensures
            match r {
                Some(s) => now.is_date_time() && s@ == long_stamp_text(*now),
                None => !now.is_date_time(),
            },
    {
        render_fields(now, "%Y-%m-%d %H:%M:%S%.3f")
    }

    /// The local date and time `now` as `%Y%m%d-%H%M%S`; `None` when the
    /// fields name no date and time.
    pub fn timestamp1(now: &LocalFields) -> (r: Option<String>)
        ensures
            match r {
                Some(s) => now.is_date_time() && s@ == compact_stamp_text(*now),
                None => !now.is_date_time(),
            },
    {
        render_fields(now, "%Y%m%d-%H%M%S")
    }
}

} // verus!
