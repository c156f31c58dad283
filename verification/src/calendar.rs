//! Calendar dates and clock times as the manager reads them, and the text the
//! control panel shows for them.
use vstd::prelude::*;

use crate::text::{
    ascii_bytes, decimal, lemma_decimal_reads_back, lemma_zero_padded_reads_back,
    lemma_zero_padded_two_chars, push_char, push_decimal, push_zero_padded2, unsigned_value,
    zero_padded2,
};
use crate::weather_data::{day_of_year, is_leap_year, month_length};

verus! {

/// Smallest and largest year of the calendar (that of the `time` crate).
pub const MIN_YEAR: i32 = -9999;

pub const MAX_YEAR: i32 = 9999;

/// A day of the proleptic Gregorian calendar.
#[derive(Debug, Clone, Copy, PartialEq, Eq, Structural)]
pub struct CalendarDate {
    pub year: i32,
    pub month: u8,
    pub day: u8,
}

impl CalendarDate {
    /// Whether the fields name a day of the calendar.
    pub open spec fn is_valid(self) -> bool {
        &&& MIN_YEAR <= self.year <= MAX_YEAR
        &&& 1 <= self.month <= 12
        &&& 1 <= self.day <= month_length(self.month as int, is_leap_year(self.year as int))
    }
}

/// The day after `d`; `None` after the last day of the calendar.
pub open spec fn following_day(d: CalendarDate) -> Option<CalendarDate> {
    if (d.day as int) < month_length(d.month as int, is_leap_year(d.year as int)) {
        Some(CalendarDate { year: d.year, month: d.month, day: (d.day + 1) as u8 })
    } else if d.month < 12 {
        Some(CalendarDate { year: d.year, month: (d.month + 1) as u8, day: 1 })
    } else if d.year < MAX_YEAR {
        Some(CalendarDate { year: (d.year + 1) as i32, month: 1, day: 1 })
    } else {
        None
    }
}

/// Whether `year` (any `i32`) is a Gregorian leap year.
pub fn is_leap(year: i32) -> (r: bool)
    ensures
        r == is_leap_year(year as int),
{
    let a: u32 = if year < 0 {
        (0 - (year as i64)) as u32
    } else {
        year as u32
    };
    proof {
        assert((year as int) % 4 == 0 <==> (a as int) % 4 == 0) by (nonlinear_arith)
            requires
                a as int == year as int || a as int == -(year as int),
        ;
        assert((year as int) % 100 == 0 <==> (a as int) % 100 == 0) by (nonlinear_arith)
            requires
                a as int == year as int || a as int == -(year as int),
        ;
        assert((year as int) % 400 == 0 <==> (a as int) % 400 == 0) by (nonlinear_arith)
            requires
                a as int == year as int || a as int == -(year as int),
        ;
    }
    a % 4 == 0 && (a % 100 != 0 || a % 400 == 0)
}

/// Number of days in `month` of `year`.
pub fn days_in_month(year: i32, month: u8) -> (r: u8)
    requires
        1 <= month <= 12,
    ensures
        r == month_length(month as int, is_leap_year(year as int)),
{
    if month == 2 {
        if is_leap(year) {
            29
        } else {
            28
        }
    } else if month == 4 || month == 6 || month == 9 || month == 11 {
        30
    } else {
        31
    }
}

/// The next calendar day (what `time::Date::next_day` gives): `None` only
/// after 9999-12-31.
pub fn next_day(d: &CalendarDate) -> (r: Option<CalendarDate>)
    requires
        d.is_valid(),
    ensures
        r == following_day(*d),
        r matches Some(n) ==> n.is_valid(),
{
    let len = days_in_month(d.year, d.month);
    if d.day < len {
        Some(CalendarDate { year: d.year, month: d.month, day: d.day + 1 })
    } else if d.month < 12 {
        Some(CalendarDate { year: d.year, month: d.month + 1, day: 1 })
    } else if d.year < MAX_YEAR {
        Some(CalendarDate { year: d.year + 1, month: 1, day: 1 })
    } else {
        None
    }
}

/// The day before `d`; `None` before the first day of the calendar.
pub open spec fn preceding_day(d: CalendarDate) -> Option<CalendarDate> {
    if d.day > 1 {
        Some(CalendarDate { year: d.year, month: d.month, day: (d.day - 1) as u8 })
    } else if d.month > 1 {
        Some(
            CalendarDate {
                year: d.year,
                month: (d.month - 1) as u8,
                day: month_length(d.month - 1, is_leap_year(d.year as int)) as u8,
            },
        )
    } else if d.year > MIN_YEAR {
        Some(CalendarDate { year: (d.year - 1) as i32, month: 12, day: 31 })
    } else {
        None
    }
}

/// The previous calendar day (what `time::Date::previous_day` gives): `None`
/// only before -9999-01-01.
pub fn previous_day(d: &CalendarDate) -> (r: Option<CalendarDate>)
    requires
        d.is_valid(),
    ensures
        r == preceding_day(*d),
        r matches Some(p) ==> p.is_valid(),
{
    if d.day > 1 {
        Some(CalendarDate { year: d.year, month: d.month, day: d.day - 1 })
    } else if d.month > 1 {
        let len = days_in_month(d.year, d.month - 1);
        Some(CalendarDate { year: d.year, month: d.month - 1, day: len })
    } else if d.year > MIN_YEAR {
        Some(CalendarDate { year: d.year - 1, month: 12, day: 31 })
    } else {
        None
    }
}

/// A time of day.
#[derive(Debug, Clone, Copy, PartialEq, Eq, Structural)]
pub struct ClockTime {
    pub hour: u8,
    pub minute: u8,
    pub second: u8,
    pub nanosecond: u32,
}

impl ClockTime {
    pub open spec fn is_valid(self) -> bool {
        self.hour < 24 && self.minute < 60 && self.second < 60 && self.nanosecond < 1_000_000_000
    }

    /// Nanoseconds since midnight.
    pub open spec fn since_midnight(self) -> int {
        ((self.hour * 60 + self.minute) * 60 + self.second) * 1_000_000_000 + self.nanosecond
    }
}

/// The date as the panel shows it: `DD/MM/Y`, day and month zero-padded to two
/// digits, then the last two digits of the year without padding.
pub open spec fn date_text(d: CalendarDate) -> Seq<char> {
    zero_padded2(d.day as nat) + seq!['/'] + zero_padded2(d.month as nat) + seq!['/'] + decimal(
        ((if d.year < 0 {
            -d.year
        } else {
            d.year as int
        }) % 100) as nat,
    )
}

/// The time as the panel shows it: `HH:MM`, both zero-padded.
pub open spec fn clock_text(hour: nat, minute: nat) -> Seq<char> {
    zero_padded2(hour) + seq![':'] + zero_padded2(minute)
}

/// Formats a date for the panel.
pub fn format_date(d: &CalendarDate) -> (r: String)
    ensures
        r@ == date_text(*d),
{
    let mut s = String::new();
    push_zero_padded2(&mut s, d.day as u64);
    push_char(&mut s, '/');
    push_zero_padded2(&mut s, d.month as u64);
    push_char(&mut s, '/');
    let a: u64 = if d.year < 0 {
        (0 - (d.year as i64)) as u64
    } else {
        d.year as u64
    };
    push_decimal(&mut s, a % 100);
    assert(s@ =~= date_text(*d));
    s
}

/// Formats a time of day for the panel.
pub fn format_clock(hour: u8, minute: u8) -> (r: String)
    ensures
        r@ == clock_text(hour as nat, minute as nat),
{
    let mut s = String::new();
    push_zero_padded2(&mut s, hour as u64);
    push_char(&mut s, ':');
    push_zero_padded2(&mut s, minute as u64);
    assert(s@ =~= clock_text(hour as nat, minute as nat));
    s
}

/// The day after a valid day other than the last of its year is the next
/// ordinal day of the same year.
pub proof fn lemma_next_day_is_next_ordinal(d: CalendarDate)
    requires
        d.is_valid(),
        !(d.month == 12 && d.day == 31),
    ensures
        following_day(d) matches Some(n) && n.year == d.year && day_of_year(
            n.day as int,
            n.month as int,
            is_leap_year(d.year as int),
        ) == day_of_year(d.day as int, d.month as int, is_leap_year(d.year as int)) + 1,
{
    let leap = is_leap_year(d.year as int);
    reveal_with_fuel(crate::weather_data::days_before_month, 2);
}

/// The day after the last day of a year is the first day of the next year.
pub proof fn lemma_next_day_after_new_year_eve(d: CalendarDate)
    requires
        d.is_valid(),
        d.month == 12 && d.day == 31,
        d.year < MAX_YEAR,
    ensures
        following_day(d) == Some(CalendarDate { year: (d.year + 1) as i32, month: 1, day: 1 }),
{
}

/// The ordinal of a valid day lies between 1 and the number of days of its year.
pub proof fn lemma_day_of_year_range(d: CalendarDate)
    requires
        d.is_valid(),
    ensures
        1 <= day_of_year(d.day as int, d.month as int, is_leap_year(d.year as int)) <= if is_leap_year(
            d.year as int,
        ) {
            366int
        } else {
            365int
        },
{
    reveal_with_fuel(crate::weather_data::days_before_month, 13);
}

/// The date six hours before the moment `t` of day `d`: the day whose solar
/// output has just been seen, looked at from the tariff window. `None` when
/// that moment falls before the calendar.
pub fn date_six_hours_before(d: &CalendarDate, t: &ClockTime) -> (r: Option<CalendarDate>)
    requires
        d.is_valid(),
        t.is_valid(),
    ensures
        r == (if t.hour >= 6 {
            Some(*d)
        } else {
            preceding_day(*d)
        }),
{
    if t.hour >= 6 {
        Some(*d)
    } else {
        previous_day(d)
    }
}

/// The date six hours after the moment `t` of day `d`: the day whose solar
/// output is coming, looked at from the tariff window. `None` when that moment
/// falls after the calendar.
pub fn date_six_hours_after(d: &CalendarDate, t: &ClockTime) -> (r: Option<CalendarDate>)
    requires
        d.is_valid(),
        t.is_valid(),
    ensures
        r == (if t.hour < 18 {
            Some(*d)
        } else {
            following_day(*d)
        }),
{
    if t.hour < 18 {
        Some(*d)
    } else {
        next_day(d)
    }
}

/// Going a day back and then a day forward returns to the same day, and the
/// other way round.
pub proof fn lemma_previous_next_day_round_trip(d: CalendarDate)
    requires
        d.is_valid(),
    ensures
        preceding_day(d) matches Some(p) ==> following_day(p) == Some(d),
        following_day(d) matches Some(n) ==> preceding_day(n) == Some(d),
{
}

/// The panel's date reads back to the date: characters 0..2 are the day,
/// 3..5 the month, both separated by `/`, and the rest the last two digits of
/// the year.
pub proof fn lemma_date_text_reads_back(d: CalendarDate)
    requires
        d.is_valid(),
    ensures
        date_text(d)[2] == '/',
        date_text(d)[5] == '/',
        unsigned_value(ascii_bytes(date_text(d).subrange(0, 2))) == Some(d.day as nat),
        unsigned_value(ascii_bytes(date_text(d).subrange(3, 5))) == Some(d.month as nat),
        unsigned_value(ascii_bytes(date_text(d).subrange(6, date_text(d).len() as int))) == Some(
            ((if d.year < 0 {
                -d.year
            } else {
                d.year as int
            }) % 100) as nat,
        ),
{
    let day = zero_padded2(d.day as nat);
    let month = zero_padded2(d.month as nat);
    let y = ((if d.year < 0 {
        -d.year
    } else {
        d.year as int
    }) % 100) as nat;
    let year = decimal(y);
    lemma_zero_padded_two_chars(d.day as nat);
    lemma_zero_padded_two_chars(d.month as nat);
    lemma_zero_padded_reads_back(d.day as nat);
    lemma_zero_padded_reads_back(d.month as nat);
    lemma_decimal_reads_back(y);
    let t = date_text(d);
    assert(t =~= day + seq!['/'] + month + seq!['/'] + year);
    assert(t.subrange(0, 2) =~= day);
    assert(t.subrange(3, 5) =~= month);
    assert(t.subrange(6, t.len() as int) =~= year);
}

/// The panel's time reads back to the hour and the minute, separated by `:`.
pub proof fn lemma_clock_text_reads_back(hour: nat, minute: nat)
    requires
        hour < 100,
        minute < 100,
    ensures
        clock_text(hour, minute).len() == 5,
        clock_text(hour, minute)[2] == ':',
        unsigned_value(ascii_bytes(clock_text(hour, minute).subrange(0, 2))) == Some(hour),
        unsigned_value(ascii_bytes(clock_text(hour, minute).subrange(3, 5))) == Some(minute),
{
    lemma_zero_padded_two_chars(hour);
    lemma_zero_padded_two_chars(minute);
    lemma_zero_padded_reads_back(hour);
    lemma_zero_padded_reads_back(minute);
    let t = clock_text(hour, minute);
    assert(t.subrange(0, 2) =~= zero_padded2(hour));
    assert(t.subrange(3, 5) =~= zero_padded2(minute));
}

} // verus!
