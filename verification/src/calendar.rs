//! The proleptic Gregorian calendar as arithmetic on integers: which dates
//! exist, how they are counted in days, and how they are written.

use vstd::prelude::*;
use crate::text::{decimal_digits, digit_char, digit_value, is_digit_char};

verus! {

/// The first year that a date can have.
pub const MIN_YEAR: i32 = -262_143;

/// The last year that a date can have.
pub const MAX_YEAR: i32 = 262_142;

/// True when `year` has a 29th of February.
pub open spec fn is_leap_year(year: int) -> bool {
    year % 4 == 0 && (year % 100 != 0 || year % 400 == 0)
}

/// The number of days of `month` in `year`, for a month from 1 to 12.
pub open spec fn days_in_month(year: int, month: int) -> int {
    if month == 2 {
        if is_leap_year(year) {
            29
        } else {
            28
        }
    } else if month == 4 || month == 6 || month == 9 || month == 11 {
        30
    } else {
        31
    }
}

/// True when the day `day` of the month `month` of `year` exists and its
/// year is one that a date can have.
pub open spec fn is_calendar_date(year: int, month: int, day: int) -> bool {
    &&& MIN_YEAR <= year <= MAX_YEAR
    &&& 1 <= month <= 12
    &&& 1 <= day <= days_in_month(year, month)
}

/// The number of days of `year` that lie before the first of `month`.
pub open spec fn days_before_month(year: int, month: int) -> int
    decreases month,
{
    if month <= 1 {
        0
    } else {
        days_before_month(year, month - 1) + days_in_month(year, month - 1)
    }
}

/// The number of days from the first of January of year 1 to the first of
/// January of `year`; negative for the years before year 1.
pub open spec fn days_before_year(year: int) -> int {
    let y = year - 1;
    365 * y + y / 4 - y / 100 + y / 400
}

/// The number of a day, counted so that the first of January of year 1 is
/// day 1 and each later day is one more.
pub open spec fn day_number(year: int, month: int, day: int) -> int {
    days_before_year(year) + days_before_month(year, month) + day
}

/// The number of the first day that a date can be.
pub open spec fn first_day_number() -> int {
    day_number(MIN_YEAR as int, 1, 1)
}

/// The number of the last day that a date can be.
pub open spec fn last_day_number() -> int {
    day_number(MAX_YEAR as int, 12, 31)
}

/// The number of days of `year`.
pub open spec fn days_in_year(year: int) -> int {
    if is_leap_year(year) {
        366
    } else {
        365
    }
}

/// The days before each month, written out.
pub proof fn lemma_days_before_month(year: int)
    ensures
        days_before_month(year, 1) == 0,
        days_before_month(year, 2) == 31,
        days_before_month(year, 3) == 31 + days_in_month(year, 2),
        days_before_month(year, 4) == 62 + days_in_month(year, 2),
        days_before_month(year, 5) == 92 + days_in_month(year, 2),
        days_before_month(year, 6) == 123 + days_in_month(year, 2),
        days_before_month(year, 7) == 153 + days_in_month(year, 2),
        days_before_month(year, 8) == 184 + days_in_month(year, 2),
        days_before_month(year, 9) == 215 + days_in_month(year, 2),
        days_before_month(year, 10) == 245 + days_in_month(year, 2),
        days_before_month(year, 11) == 276 + days_in_month(year, 2),
        days_before_month(year, 12) == 306 + days_in_month(year, 2),
        days_before_month(year, 13) == 337 + days_in_month(year, 2),
{
    reveal_with_fuel(days_before_month, 14);
}

/// A year begins where the year before it ends.
pub proof fn lemma_next_year(year: int)
    ensures
        days_before_year(year + 1) == days_before_year(year) + days_in_year(year),
{
}

/// Later years begin later, by at least the length of the earlier year.
pub proof fn lemma_years_in_order(earlier: int, later: int)
    requires
        earlier < later,
    ensures
        days_before_year(earlier) + days_in_year(earlier) <= days_before_year(later),
    decreases later - earlier,
{
    lemma_next_year(earlier);
    if earlier + 1 < later {
        lemma_years_in_order(earlier + 1, later);
    }
}

/// The days of one year are numbered in the order of the calendar, from
/// the first to the last day of that year.
pub proof fn lemma_days_in_order_within_year(
    year: int,
    month_a: int,
    day_a: int,
    month_b: int,
    day_b: int,
)
    requires
        1 <= month_a <= 12,
        1 <= day_a <= days_in_month(year, month_a),
        1 <= month_b <= 12,
        1 <= day_b <= days_in_month(year, month_b),
    ensures
        1 <= days_before_month(year, month_a) + day_a <= days_in_year(year),
        (month_a < month_b || (month_a == month_b && day_a < day_b)) ==> days_before_month(
            year,
            month_a,
        ) + day_a < days_before_month(year, month_b) + day_b,
{
    lemma_days_before_month(year);
}

/// Days are numbered in the order of the calendar: of two dates, the one
/// that comes first by year, then month, then day has the smaller number.
pub proof fn lemma_day_number_in_order(
    year_a: int,
    month_a: int,
    day_a: int,
    year_b: int,
    month_b: int,
    day_b: int,
)
    requires
        1 <= month_a <= 12,
        1 <= day_a <= days_in_month(year_a, month_a),
        1 <= month_b <= 12,
        1 <= day_b <= days_in_month(year_b, month_b),
        year_a < year_b || (year_a == year_b && (month_a < month_b || (month_a == month_b && day_a
            < day_b))),
    ensures
        day_number(year_a, month_a, day_a) < day_number(year_b, month_b, day_b),
{
    lemma_days_in_order_within_year(year_a, month_a, day_a, month_a, day_a);
    lemma_days_in_order_within_year(year_b, month_b, day_b, month_b, day_b);
    if year_a < year_b {
        lemma_years_in_order(year_a, year_b);
    } else {
        lemma_days_in_order_within_year(year_a, month_a, day_a, month_b, day_b);
    }
}

/// A day number belongs to one date only.
pub proof fn lemma_day_number_names_one_date(
    year_a: int,
    month_a: int,
    day_a: int,
    year_b: int,
    month_b: int,
    day_b: int,
)
    requires
        1 <= month_a <= 12,
        1 <= day_a <= days_in_month(year_a, month_a),
        1 <= month_b <= 12,
        1 <= day_b <= days_in_month(year_b, month_b),
        day_number(year_a, month_a, day_a) == day_number(year_b, month_b, day_b),
    ensures
        year_a == year_b,
        month_a == month_b,
        day_a == day_b,
{
    if year_a < year_b || (year_a == year_b && (month_a < month_b || (month_a == month_b && day_a
        < day_b))) {
        lemma_day_number_in_order(year_a, month_a, day_a, year_b, month_b, day_b);
    } else if year_a != year_b || month_a != month_b || day_a != day_b {
        lemma_day_number_in_order(year_b, month_b, day_b, year_a, month_a, day_a);
    }
}

/// Every date lies between the first and the last day that a date can be.
pub proof fn lemma_day_number_in_range(year: int, month: int, day: int)
    requires
        is_calendar_date(year, month, day),
    ensures
        first_day_number() <= day_number(year, month, day) <= last_day_number(),
{
    if year != MIN_YEAR || month != 1 || day != 1 {
        lemma_day_number_in_order(MIN_YEAR as int, 1, 1, year, month, day);
    }
    if year != MAX_YEAR || month != 12 || day != 31 {
        lemma_day_number_in_order(year, month, day, MAX_YEAR as int, 12, 31);
    }
}

/// A number below 100 as two digits.
pub open spec fn two_digits(n: int) -> Seq<char> {
    seq![digit_char(n / 10), digit_char(n % 10)]
}

/// A number below 10000 as four digits.
pub open spec fn four_digits(n: int) -> Seq<char> {
    seq![
        digit_char(n / 1000),
        digit_char((n / 100) % 10),
        digit_char((n / 10) % 10),
        digit_char(n % 10),
    ]
}

/// A year as it is written in a date: four digits for the years 0 to 9999;
/// outside them a sign, then the digits of the magnitude, at least four.
pub open spec fn year_text(year: int) -> Seq<char> {
    if 0 <= year <= 9999 {
        four_digits(year)
    } else if year > 9999 {
        seq!['+'] + decimal_digits(year as nat)
    } else if year >= -9999 {
        seq!['-'] + four_digits(-year)
    } else {
        seq!['-'] + decimal_digits((-year) as nat)
    }
}

/// A date as it is written: the year, the month and the day, with a hyphen
/// between them.
pub open spec fn iso_date_text(year: int, month: int, day: int) -> Seq<char> {
    year_text(year) + seq!['-'] + two_digits(month) + seq!['-'] + two_digits(day)
}

/// True when `text` has the shape `YYYY-MM-DD`: ten characters, digits but
/// for a hyphen in the fifth and in the eighth place.
pub open spec fn has_iso_date_shape(text: Seq<char>) -> bool {
    &&& text.len() == 10
    &&& is_digit_char(text[0])
    &&& is_digit_char(text[1])
    &&& is_digit_char(text[2])
    &&& is_digit_char(text[3])
    &&& text[4] == '-'
    &&& is_digit_char(text[5])
    &&& is_digit_char(text[6])
    &&& text[7] == '-'
    &&& is_digit_char(text[8])
    &&& is_digit_char(text[9])
}

/// The number that the `count` digits of `text` from `from` on stand for.
pub open spec fn digits_value(text: Seq<char>, from: int, count: int) -> int
    decreases count,
{
    if count <= 0 {
        0
    } else {
        digits_value(text, from, count - 1) * 10 + digit_value(text[from + count - 1])
    }
}

/// The year, month and day that `text` stands for: `text` has the shape
/// `YYYY-MM-DD` and that day exists. Anything else stands for no date.
pub open spec fn parse_iso_date(text: Seq<char>) -> Option<(int, int, int)> {
    if has_iso_date_shape(text) && is_calendar_date(
        digits_value(text, 0, 4),
        digits_value(text, 5, 2),
        digits_value(text, 8, 2),
    ) {
        Some((digits_value(text, 0, 4), digits_value(text, 5, 2), digits_value(text, 8, 2)))
    } else {
        None
    }
}

/// A date of the years 0 to 9999, written out and read again, is the same
/// date; and what is written is ten characters long.
pub proof fn lemma_written_date_reads_back(year: int, month: int, day: int)
    requires
        is_calendar_date(year, month, day),
        0 <= year <= 9999,
    ensures
        iso_date_text(year, month, day).len() == 10,
        parse_iso_date(iso_date_text(year, month, day)) == Some((year, month, day)),
{
    let text = iso_date_text(year, month, day);
    reveal_with_fuel(digits_value, 5);
    assert(text[0] == digit_char(year / 1000));
    assert(text[1] == digit_char((year / 100) % 10));
    assert(text[2] == digit_char((year / 10) % 10));
    assert(text[3] == digit_char(year % 10));
    assert(text[4] == '-');
    assert(text[5] == digit_char(month / 10));
    assert(text[6] == digit_char(month % 10));
    assert(text[7] == '-');
    assert(text[8] == digit_char(day / 10));
    assert(text[9] == digit_char(day % 10));
    lemma_digit_char_value(year / 1000);
    lemma_digit_char_value((year / 100) % 10);
    lemma_digit_char_value((year / 10) % 10);
    lemma_digit_char_value(year % 10);
    lemma_digit_char_value(month / 10);
    lemma_digit_char_value(month % 10);
    lemma_digit_char_value(day / 10);
    lemma_digit_char_value(day % 10);
}

/// The character of a digit is a digit character, and its value is that digit.
pub proof fn lemma_digit_char_value(d: int)
    requires
        0 <= d <= 9,
    ensures
        is_digit_char(digit_char(d)),
        digit_value(digit_char(d)) == d,
{
}

} // verus!
