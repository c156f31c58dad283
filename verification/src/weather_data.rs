//! The calendar and clock part of the weather features: the day of the year
//! and the hour of each hourly record, read from the API's time stamps
//! (`YYYY-MM-DDTHH:MM`).
use vstd::prelude::*;

use crate::text::{all_digits, digits_value, is_digit, parse_unsigned_field, unsigned_value};

verus! {

/// Why the weather API's records could not be turned into model features.
#[derive(Debug, Clone, Copy, PartialEq, Eq, Structural)]
pub enum WeatherDataError {
    DateConversion(),
    FloatConversion(),
    DataOverflow(),
}

/// The UTF-8 bytes of a string.
pub open spec fn utf8_bytes(s: String) -> Seq<u8> {
    vstd::utf8::encode_utf8(s@)
}

/// Gregorian leap year.
pub open spec fn is_leap_year(year: int) -> bool {
    year % 4 == 0 && (year % 100 != 0 || year % 400 == 0)
}

/// Number of days in `month` (1 to 12).
pub open spec fn month_length(month: int, leap: bool) -> int {
    if month == 2 {
        if leap {
            29
        } else {
            28
        }
    } else if month == 4 || month == 6 || month == 9 || month == 11 {
        30
    } else {
        31
    }
}

/// Number of days in the months of the year before `month`.
pub open spec fn days_before_month(month: int, leap: bool) -> int
    decreases month,
{
    if month <= 1 {
        0
    } else {
        days_before_month(month - 1, leap) + month_length(month - 1, leap)
    }
}

/// Ordinal day of the year of `day` in `month`.
pub open spec fn day_of_year(day: int, month: int, leap: bool) -> int {
    day + days_before_month(month, leap)
}

/// Year, month and day written in bytes 0..4, 5..7 and 8..10 of a time stamp.
pub open spec fn date_prefix(s: Seq<u8>) -> Option<(nat, nat, nat)> {
    if s.len() < 10 {
        None
    } else {
        match (
            unsigned_value(s.subrange(0, 4)),
            unsigned_value(s.subrange(5, 7)),
            unsigned_value(s.subrange(8, 10)),
        ) {
            (Some(y), Some(m), Some(d)) => Some((y, m, d)),
            _ => None,
        }
    }
}

/// The value that `f32`'s `from_str` reads from a field of two bytes, as a sign
/// and a number of tenths. Its grammar allows, in two bytes, exactly: two digits,
/// a sign and a digit, a point and a digit, or a digit and a point.
pub open spec fn two_byte_float(a: u8, b: u8) -> Option<(bool, nat)> {
    if is_digit(a) && is_digit(b) {
        Some((false, (((a - 48) * 10 + (b - 48)) * 10) as nat))
    } else if (a == 43 || a == 45) && is_digit(b) {
        Some((a == 45, ((b - 48) * 10) as nat))
    } else if a == 46 && is_digit(b) {
        Some((false, (b - 48) as nat))
    } else if is_digit(a) && b == 46 {
        Some((false, ((a - 48) * 10) as nat))
    } else {
        None
    }
}

/// The hour written in bytes 11..13 of a time stamp.
pub open spec fn hour_field(s: Seq<u8>) -> Option<(bool, nat)> {
    if s.len() < 13 {
        None
    } else {
        two_byte_float(s[11], s[12])
    }
}

/// The hour of a record as its time stamp writes it: `negative` and `tenths`
/// give the value `(-1 if negative) * tenths / 10`.
#[derive(Debug, Clone, Copy, PartialEq, Eq, Structural)]
pub struct HourReading {
    pub negative: bool,
    pub tenths: u16,
}

/// Year, month and day of the first record.
#[derive(Debug, Clone, Copy, PartialEq, Eq, Structural)]
pub struct DateFields {
    pub year: u16,
    pub month: usize,
    pub day: u16,
}

/// What the time stamps of the 24 hourly records give the model.
#[derive(Debug)]
pub struct TimeFeatures {
    pub year_day: u16,
    pub leap_year: bool,
    pub hours: Vec<HourReading>,
}

/// Whether the date of the first stamp can be read and every stamp has an hour.
pub open spec fn stamps_readable(times: Seq<String>) -> bool {
    &&& date_prefix(utf8_bytes(times[0])) is Some
    &&& forall|i: int| 0 <= i < 24 ==> (#[trigger] hour_field(utf8_bytes(times[i]))) is Some
}

/// Whether the stamps hold a month outside 1 to 13: counting the days of the
/// months before it would then read past the table of the twelve month lengths
/// (month 13 counts the whole year), which stops the program.
pub open spec fn month_out_of_range(times: Seq<String>) -> bool {
    date_prefix(utf8_bytes(times[0])) matches Some((y, m, d)) && !(1 <= m <= 13)
}

/// Reads the year, month and day at the start of a time stamp.
pub fn read_date_prefix(stamp: &str) -> (r: Option<DateFields>)
    ensures
        r is Some <==> date_prefix(vstd::utf8::encode_utf8(stamp@)) is Some,
        r matches Some(f) ==> date_prefix(vstd::utf8::encode_utf8(stamp@)) == Some(
            (f.year as nat, f.month as nat, f.day as nat),
        ),
        r matches Some(f) ==> f.year <= 9999 && f.month <= 9999 && f.day <= 9999,
{
    let bytes = stamp.as_bytes();
    if bytes.len() < 10 {
        return None;
    }
    let year = parse_unsigned_field(bytes, 0, 4, 65535);
    let month = parse_unsigned_field(bytes, 5, 7, 65535);
    let day = parse_unsigned_field(bytes, 8, 10, 65535);
    proof {
        lemma_short_field_bound(bytes@.subrange(0, 4));
        lemma_short_field_bound(bytes@.subrange(5, 7));
        lemma_short_field_bound(bytes@.subrange(8, 10));
    }
    match (year, month, day) {
        (Some(y), Some(m), Some(d)) => Some(
            DateFields { year: y as u16, month: m as usize, day: d as u16 },
        ),
        _ => None,
    }
}

/// Reads the hour of a time stamp: the field in bytes 11..13 as `f32`'s
/// `from_str` reads it.
pub fn read_hour(stamp: &str) -> (r: Option<HourReading>)
    ensures
        r is Some <==> hour_field(vstd::utf8::encode_utf8(stamp@)) is Some,
        r matches Some(h) ==> hour_field(vstd::utf8::encode_utf8(stamp@)) == Some(
            (h.negative, h.tenths as nat),
        ),
{
    let bytes = stamp.as_bytes();
    if bytes.len() < 13 {
        return None;
    }
    let a = bytes[11];
    let b = bytes[12];
    let a_digit = 48u8 <= a && a <= 57u8;
    let b_digit = 48u8 <= b && b <= 57u8;
    if a_digit && b_digit {
        Some(HourReading { negative: false, tenths: (((a - 48) as u16) * 10 + (b - 48) as u16) * 10 })
    } else if (a == 43u8 || a == 45u8) && b_digit {
        Some(HourReading { negative: a == 45u8, tenths: ((b - 48) as u16) * 10 })
    } else if a == 46u8 && b_digit {
        Some(HourReading { negative: false, tenths: (b - 48) as u16 })
    } else if a_digit && b == 46u8 {
        Some(HourReading { negative: false, tenths: ((a - 48) as u16) * 10 })
    } else {
        None
    }
}

/// Whether `year` is a leap year of the Gregorian calendar.
pub fn leap_year(year: u16) -> (r: bool)
    ensures
        r == is_leap_year(year as int),
{
    if year % 400 == 0 {
        true
    } else if year % 100 == 0 {
        false
    } else if year % 4 == 0 {
        true
    } else {
        false
    }
}

/// Ordinal day of the year of `day` in `month`: `day` plus the days of the
/// months before `month` (1 to 13; month 13 follows the whole year).
pub fn ordinal_day(day: u16, month: usize, leap: bool) -> (r: u16)
    requires
        1 <= month <= 13,
        day + days_before_month(month as int, leap) <= u16::MAX,
    ensures
        r == day_of_year(day as int, month as int, leap),
{
    let month_lengths: [u16; 12] = [
        31,
        if leap {
            29
        } else {
            28
        },
        31,
        30,
        31,
        30,
        31,
        31,
        30,
        31,
        30,
        31,
    ];
    let mut year_day: u16 = day;
    let mut k: usize = 0;
    proof {
        reveal_with_fuel(days_before_month, 2);
    }
    while k < month - 1
        invariant
            1 <= month <= 13,
            k <= month - 1,
            day + days_before_month(month as int, leap) <= u16::MAX,
            year_day == day + days_before_month(k + 1, leap),
            forall|j: int|
                0 <= j < 12 ==> #[trigger] month_lengths@[j] == month_length(j + 1, leap),
        decreases month - 1 - k,
    {
        proof {
            lemma_days_before_month_monotone(k + 2, month as int, leap);
        }
        year_day = year_day + month_lengths[k];
        k = k + 1;
    }
    year_day
}

proof fn lemma_days_before_month_monotone(a: int, b: int, leap: bool)
    requires
        1 <= a <= b,
    ensures
        days_before_month(a, leap) <= days_before_month(b, leap),
    decreases b - a,
{
    if a < b {
        lemma_days_before_month_monotone(a, b - 1, leap);
    }
}

/// Reads the day of the year and the hour of each record from the 24 hourly
/// time stamps. The first stamp gives the date.
pub fn time_features(times: &[String; 24]) -> (r: Result<TimeFeatures, WeatherDataError>)
    requires
        !month_out_of_range(times@),
    ensures
        r is Ok <==> stamps_readable(times@),
        r matches Err(e) ==> e == WeatherDataError::DateConversion(),
        r matches Ok(f) ==> {
            &&& date_prefix(utf8_bytes(times@[0])) matches Some((y, m, d))
            &&& f.leap_year == is_leap_year(y as int)
            &&& f.year_day == day_of_year(d as int, m as int, f.leap_year)
            &&& f.hours@.len() == 24
            &&& forall|i: int|
                0 <= i < 24 ==> hour_field(utf8_bytes(times@[i])) == Some(
                    (#[trigger] f.hours@[i].negative, f.hours@[i].tenths as nat),
                )
        },
{
    let first: &String = &times[0];
    let date = match read_date_prefix(first.as_str()) {
        Some(date) => date,
        None => return Err(WeatherDataError::DateConversion()),
    };
    let leap = leap_year(date.year);
    proof {
        lemma_days_before_month_monotone(date.month as int, 13, leap);
        reveal_with_fuel(days_before_month, 14);
    }
    let year_day = ordinal_day(date.day, date.month, leap);
    let mut hours: Vec<HourReading> = Vec::new();
    let mut i: usize = 0;
    while i < 24
        invariant
            i <= 24,
            hours@.len() == i,
            forall|j: int|
                0 <= j < i ==> hour_field(utf8_bytes(times@[j])) == Some(
                    (#[trigger] hours@[j].negative, hours@[j].tenths as nat),
                ),
        decreases 24 - i,
    {
        let stamp: &String = &times[i];
        match read_hour(stamp.as_str()) {
            Some(h) => hours.push(h),
            None => {
                assert(hour_field(utf8_bytes(times@[i as int])) is None);
                return Err(WeatherDataError::DateConversion());
            },
        }
        i = i + 1;
    }
    assert forall|j: int| 0 <= j < 24 implies (#[trigger] hour_field(
        utf8_bytes(times@[j]),
    )) is Some by {
        assert(hour_field(utf8_bytes(times@[j])) == Some(
            (hours@[j].negative, hours@[j].tenths as nat),
        ));
    }
    Ok(TimeFeatures { year_day, leap_year: leap, hours })
}

spec fn pow10(n: nat) -> nat
    decreases n,
{
    if n == 0 {
        1
    } else {
        10 * pow10((n - 1) as nat)
    }
}

proof fn lemma_digits_value_bound(s: Seq<u8>)
    requires
        crate::text::all_digits(s),
    ensures
        crate::text::digits_value(s) < pow10(s.len()),
    decreases s.len(),
{
    if s.len() > 0 {
        assert(crate::text::all_digits(s.drop_last()));
        lemma_digits_value_bound(s.drop_last());
        assert(is_digit(s[s.len() - 1]));
    }
}

proof fn lemma_short_field_bound(s: Seq<u8>)
    requires
        s.len() <= 4,
    ensures
        unsigned_value(s) matches Some(v) ==> v <= 9999,
{
    let digits = if s.len() > 0 && s[0] == 43 {
        s.drop_first()
    } else {
        s
    };
    if digits.len() > 0 && crate::text::all_digits(digits) {
        lemma_digits_value_bound(digits);
        reveal_with_fuel(pow10, 5);
    }
}

/// The months have their Gregorian lengths: April, June, September and
/// November 30 days, February 28 or 29 (in a leap year), the others 31.
pub proof fn lemma_gregorian_month_lengths(month: int, leap: bool)
    requires
        1 <= month <= 12,
    ensures
        month_length(month, leap) == 30 <==> (month == 4 || month == 6 || month == 9 || month
            == 11),
        month == 2 ==> month_length(month, leap) == (if leap {
            29int
        } else {
            28int
        }),
        (month == 1 || month == 3 || month == 5 || month == 7 || month == 8 || month == 10 || month
            == 12) ==> month_length(month, leap) == 31,
{
}

/// The days before each month add up to the Gregorian year: 0 before
/// January, 31 before February, 59 (60) before March, and so on, 334 (335)
/// before December and 365 (366) for the whole year.
pub proof fn lemma_days_before_each_month(leap: bool)
    ensures
        days_before_month(1, leap) == 0,
        days_before_month(2, leap) == 31,
        days_before_month(3, leap) == 59 + if leap { 1int } else { 0int },
        days_before_month(4, leap) == 90 + if leap { 1int } else { 0int },
        days_before_month(5, leap) == 120 + if leap { 1int } else { 0int },
        days_before_month(6, leap) == 151 + if leap { 1int } else { 0int },
        days_before_month(7, leap) == 181 + if leap { 1int } else { 0int },
        days_before_month(8, leap) == 212 + if leap { 1int } else { 0int },
        days_before_month(9, leap) == 243 + if leap { 1int } else { 0int },
        days_before_month(10, leap) == 273 + if leap { 1int } else { 0int },
        days_before_month(11, leap) == 304 + if leap { 1int } else { 0int },
        days_before_month(12, leap) == 334 + if leap { 1int } else { 0int },
        days_before_month(13, leap) == 365 + if leap { 1int } else { 0int },
{
    reveal_with_fuel(days_before_month, 14);
}

/// Leap years follow the Gregorian rule: every fourth year, except century
/// years, except every fourth century; the rule repeats every 400 years.
pub proof fn lemma_gregorian_leap_rule(year: int)
    ensures
        year % 4 != 0 ==> !is_leap_year(year),
        year % 4 == 0 && year % 100 != 0 ==> is_leap_year(year),
        year % 100 == 0 && year % 400 != 0 ==> !is_leap_year(year),
        year % 400 == 0 ==> is_leap_year(year),
        is_leap_year(year) == is_leap_year(year + 400),
{
    assert((year + 400) % 4 == year % 4);
    assert((year + 400) % 100 == year % 100);
    assert((year + 400) % 400 == year % 400);
}

/// The bytes of a time stamp `YYYY-MM-DDTHH` (then anything).
pub open spec fn stamp_bytes(year: nat, month: nat, day: nat, hour: nat, rest: Seq<u8>) -> Seq<u8> {
    seq![
        (48 + year / 1000) as u8,
        (48 + year / 100 % 10) as u8,
        (48 + year / 10 % 10) as u8,
        (48 + year % 10) as u8,
        45u8,
        (48 + month / 10) as u8,
        (48 + month % 10) as u8,
        45u8,
        (48 + day / 10) as u8,
        (48 + day % 10) as u8,
        84u8,
        (48 + hour / 10) as u8,
        (48 + hour % 10) as u8,
    ] + rest
}

proof fn lemma_two_digits_value(a: u8, b: u8)
    requires
        is_digit(a),
        is_digit(b),
    ensures
        all_digits(seq![a, b]),
        digits_value(seq![a, b]) == (a - 48) * 10 + (b - 48),
{
    reveal_with_fuel(digits_value, 3);
    assert(seq![a, b].drop_last() =~= seq![a]);
    assert(seq![a].drop_last() =~= Seq::<u8>::empty());
}

proof fn lemma_four_digits_value(a: u8, b: u8, c: u8, d: u8)
    requires
        is_digit(a),
        is_digit(b),
        is_digit(c),
        is_digit(d),
    ensures
        all_digits(seq![a, b, c, d]),
        digits_value(seq![a, b, c, d]) == (a - 48) * 1000 + (b - 48) * 100 + (c - 48) * 10 + (d
            - 48),
{
    lemma_two_digits_value(a, b);
    assert(seq![a, b, c, d].drop_last() =~= seq![a, b, c]);
    assert(seq![a, b, c].drop_last() =~= seq![a, b]);
    assert(digits_value(seq![a, b, c]) == digits_value(seq![a, b]) * 10 + (c - 48));
    assert(digits_value(seq![a, b, c, d]) == digits_value(seq![a, b, c]) * 10 + (d - 48));
}

/// A stamp written `YYYY-MM-DDTHH` reads back: the date fields give the year,
/// the month and the day, and the hour field gives the hour (in tenths).
pub proof fn lemma_stamp_reads_back(year: nat, month: nat, day: nat, hour: nat, rest: Seq<u8>)
    requires
        year < 10000,
        month < 100,
        day < 100,
        hour < 100,
    ensures
        date_prefix(stamp_bytes(year, month, day, hour, rest)) == Some((year, month, day)),
        hour_field(stamp_bytes(year, month, day, hour, rest)) == Some((false, 10 * hour)),
{
    let s = stamp_bytes(year, month, day, hour, rest);
    let y = s.subrange(0, 4);
    let m = s.subrange(5, 7);
    let d = s.subrange(8, 10);
    assert(y =~= seq![s[0], s[1], s[2], s[3]]);
    assert(m =~= seq![s[5], s[6]]);
    assert(d =~= seq![s[8], s[9]]);
    lemma_four_digits_value(s[0], s[1], s[2], s[3]);
    lemma_two_digits_value(s[5], s[6]);
    lemma_two_digits_value(s[8], s[9]);
    assert(year == (year / 1000) * 1000 + (year / 100 % 10) * 100 + (year / 10 % 10) * 10 + year
        % 10) by (nonlinear_arith)
        requires
            year < 10000,
    ;
    assert(month == (month / 10) * 10 + month % 10);
    assert(day == (day / 10) * 10 + day % 10);
    assert(hour == (hour / 10) * 10 + hour % 10);
}

} // verus!
