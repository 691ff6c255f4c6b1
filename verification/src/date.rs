//! Dates and seasons as the API writes them in resource paths.

use chrono::{Datelike, NaiveDate, TimeDelta};
use vstd::prelude::*;
use vstd::string::*;
use crate::calendar::{
    day_number, days_in_month, digits_value, first_day_number, has_iso_date_shape,
    is_calendar_date, iso_date_text, last_day_number, lemma_day_number_names_one_date,
    parse_iso_date, MAX_YEAR, MIN_YEAR,
};
use crate::text::{decimal_digits, digit_value, is_digit_char, str_eq, u64_to_string};

verus! {

/// Whether chrono has a date for the given year, month and day.
/// `NaiveDate::from_ymd_opt` returns a date exactly when the day exists in
/// the calendar and the year lies within chrono's range of years.
#[verifier::external_body]
fn chrono_date_exists(year: i32, month: u32, day: u32) -> (exists: bool)
    ensures
        exists == is_calendar_date(year as int, month as int, day as int),
{
    NaiveDate::from_ymd_opt(year, month, day).is_some()
}

/// The date written by chrono with the format `%Y-%m-%d`
/// (`NaiveDate::format`): the year in four digits, or signed outside 0 to
/// 9999, then month and day in two digits each.
#[verifier::external_body]
fn chrono_format_date(year: i32, month: u32, day: u32) -> (text: String)
    requires
        is_calendar_date(year as int, month as int, day as int),
    ensures
        text@ == iso_date_text(year as int, month as int, day as int),
{
    match NaiveDate::from_ymd_opt(year, month, day) {
        Some(date) => date.format("%Y-%m-%d").to_string(),
        None => String::new(),
    }
}

/// The date that lies `days` days after the given one, by chrono's
/// `NaiveDate::checked_add_signed` on `TimeDelta::try_days`: counted in the
/// proleptic Gregorian calendar, and absent exactly when it would leave
/// chrono's range of dates. Days are numbered here as chrono's
/// `Datelike::num_days_from_ce` numbers them, the first of January of year
/// 1 being day 1.
#[verifier::external_body]
fn chrono_add_days(year: i32, month: u32, day: u32, days: i64) -> (sum: Option<(i32, u32, u32)>)
    requires
        is_calendar_date(year as int, month as int, day as int),
    ensures
        sum is Some <==> first_day_number() <= day_number(year as int, month as int, day as int)
            + days <= last_day_number(),
        sum matches Some((y, m, d)) ==> is_calendar_date(y as int, m as int, d as int)
            && day_number(y as int, m as int, d as int) == day_number(
            year as int,
            month as int,
            day as int,
        ) + days,
{
    let date = NaiveDate::from_ymd_opt(year, month, day)?;
    let delta = TimeDelta::try_days(days)?;
    let sum = date.checked_add_signed(delta)?;
    Some((sum.year(), sum.month(), sum.day()))
}

/// Today's date in the local time zone, by chrono's `Local::now`. It
/// depends on the clock; all that is claimed is that it is a date.
#[verifier::external_body]
fn chrono_today() -> (today: (i32, u32, u32))
    ensures
        is_calendar_date(today.0 as int, today.1 as int, today.2 as int),
{
    let date = chrono::Local::now().date_naive();
    (date.year(), date.month(), date.day())
}

/// A day of the calendar: a year, a month and a day that exist together.
#[derive(Debug, Clone, Copy, PartialEq, Eq, Hash, Structural)]
pub struct CivilDate {
    year: i32,
    month: u32,
    day: u32,
}

impl CivilDate {
    /// The year of this date.
    pub closed spec fn spec_year(self) -> int {
        self.year as int
    }

    /// The month of this date, from 1 to 12.
    pub closed spec fn spec_month(self) -> int {
        self.month as int
    }

    /// The day of the month of this date, from 1.
    pub closed spec fn spec_day(self) -> int {
        self.day as int
    }

    /// True when this is a day that exists. Every date that executable
    /// code can hold is one.
    pub open spec fn is_valid(self) -> bool {
        is_calendar_date(self.spec_year(), self.spec_month(), self.spec_day())
    }

    #[verifier::type_invariant]
    spec fn exists_in_calendar(self) -> bool {
        is_calendar_date(self.year as int, self.month as int, self.day as int)
    }

    /// The number of this day, the first of January of year 1 being day 1.
    pub open spec fn spec_day_number(self) -> int {
        day_number(self.spec_year(), self.spec_month(), self.spec_day())
    }

    /// This date as it is written: `YYYY-MM-DD`.
    pub open spec fn text(self) -> Seq<char> {
        iso_date_text(self.spec_year(), self.spec_month(), self.spec_day())
    }

    /// Two dates with the same year, month and day are the same date.
    pub proof fn lemma_equal_by_fields(self, other: CivilDate)
        requires
            self.spec_year() == other.spec_year(),
            self.spec_month() == other.spec_month(),
            self.spec_day() == other.spec_day(),
        ensures
            self == other,
    {
    }

    /// Two dates with the same day number are the same date.
    pub proof fn lemma_equal_by_day_number(self, other: CivilDate)
        requires
            self.is_valid(),
            other.is_valid(),
            self.spec_day_number() == other.spec_day_number(),
        ensures
            self == other,
    {
        lemma_day_number_names_one_date(
            self.spec_year(),
            self.spec_month(),
            self.spec_day(),
            other.spec_year(),
            other.spec_month(),
            other.spec_day(),
        );
    }

    /// The date of the given year, month and day, if that day exists.
    pub fn from_ymd(year: i32, month: u32, day: u32) -> (date: Option<CivilDate>)
        ensures
            date is Some <==> is_calendar_date(year as int, month as int, day as int),
            date matches Some(d) ==> d.spec_year() == year && d.spec_month() == month
                && d.spec_day() == day && d.is_valid(),
    {
        if chrono_date_exists(year, month, day) {
            Some(CivilDate { year, month, day })
        } else {
            None
        }
    }

    /// Today's date in the local time zone.
    pub fn today() -> (date: CivilDate)
        ensures
            date.is_valid(),
    {
        let (year, month, day) = chrono_today();
        CivilDate { year, month, day }
    }

    /// The year of this date.
    pub fn year(&self) -> (year: i32)
        ensures
            year == self.spec_year(),
            MIN_YEAR <= year <= MAX_YEAR,
    {
        proof {
            use_type_invariant(self);
        }
        self.year
    }

    /// The month of this date, from 1 to 12.
    pub fn month(&self) -> (month: u32)
        ensures
            month == self.spec_month(),
            1 <= month <= 12,
    {
        proof {
            use_type_invariant(self);
        }
        self.month
    }

    /// The day of the month of this date.
    pub fn day(&self) -> (day: u32)
        ensures
            day == self.spec_day(),
            1 <= day <= days_in_month(self.spec_year(), self.spec_month()),
    {
        proof {
            use_type_invariant(self);
        }
        self.day
    }

    /// This date written as `YYYY-MM-DD`.
    pub fn to_api_string(&self) -> (text: String)
        ensures
            text@ == self.text(),
    {
        proof {
            use_type_invariant(self);
        }
        chrono_format_date(self.year, self.month, self.day)
    }

    /// The date `days` days after this one, or before it for a negative
    /// number; `None` when that day lies outside the range of dates.
    /// Adding no days gives the date itself.
    pub fn add_days(&self, days: i64) -> (sum: Option<CivilDate>)
        ensures
            sum is Some <==> first_day_number() <= self.spec_day_number() + days
                <= last_day_number(),
            sum matches Some(date) ==> date.is_valid() && date.spec_day_number()
                == self.spec_day_number() + days,
            days == 0 ==> sum == Some(*self),
    {
        proof {
            use_type_invariant(self);
        }
        match chrono_add_days(self.year, self.month, self.day, days) {
            Some((year, month, day)) => {
                let date = CivilDate { year, month, day };
                proof {
                    if days == 0 {
                        date.lemma_equal_by_day_number(*self);
                    }
                }
                Some(date)
            },
            None => {
                proof {
                    if days == 0 {
                        crate::calendar::lemma_day_number_in_range(
                            self.spec_year(),
                            self.spec_month(),
                            self.spec_day(),
                        );
                    }
                }
                None
            },
        }
    }
}

/// The number that `count` characters of `s` from `from` on stand for, if
/// all of them are digits.
fn read_digits(s: &str, from: usize, count: usize) -> (value: Option<u32>)
    requires
        from + count <= s@.len() <= usize::MAX,
        count <= 4,
    ensures
        value is Some <==> (forall|i: int| from <= i < from + count ==> is_digit_char(s@[i])),
        value matches Some(v) ==> v == digits_value(s@, from as int, count as int),
{
    let mut value: u32 = 0;
    let mut i: usize = 0;
    while i < count
        invariant
            i <= count <= 4,
            from + count <= s@.len() <= usize::MAX,
            forall|j: int| from <= j < from + i ==> is_digit_char(s@[j]),
            value == digits_value(s@, from as int, i as int),
            value < pow10(i as int),
        decreases count - i,
    {
        let c = s.get_char(from + i);
        if c < '0' || c > '9' {
            return None;
        }
        let digit: u32 = c as u32 - '0' as u32;
        assert(digit == digit_value(c));
        value = value * 10 + digit;
        i += 1;
    }
    Some(value)
}

/// Ten to the power `n`, for the few digits that a field of a date has.
spec fn pow10(n: int) -> int {
    if n <= 0 {
        1
    } else if n == 1 {
        10
    } else if n == 2 {
        100
    } else if n == 3 {
        1000
    } else {
        10000
    }
}

/// A date for the API: the moment of asking, left to the server, or a
/// given day.
#[derive(Debug, Clone, PartialEq, Eq, Structural)]
pub enum GameDate {
    /// The current date, as the server sees it.
    Now,
    /// A given day.
    Date(CivilDate),
}

/// A string that is neither `now` nor a date written as `YYYY-MM-DD`.
#[derive(Debug, Clone, PartialEq, Eq)]
pub struct ParseDateError(pub String);

impl Default for GameDate {
    /// The current date.
    fn default() -> (date: GameDate)
        ensures
            date == GameDate::Now,
    {
        GameDate::Now
    }
}

impl From<CivilDate> for GameDate {
    fn from(date: CivilDate) -> (wrapped: GameDate) {
        GameDate::Date(date)
    }
}

impl vstd::std_specs::convert::FromSpecImpl<CivilDate> for GameDate {
    open spec fn obeys_from_spec() -> bool {
        true
    }

    open spec fn from_spec(date: CivilDate) -> GameDate {
        GameDate::Date(date)
    }
}

impl GameDate {
    /// This date as the API writes it: the word `now`, or `YYYY-MM-DD`.
    pub open spec fn api_text(self) -> Seq<char> {
        match self {
            GameDate::Now => "now"@,
            GameDate::Date(date) => date.text(),
        }
    }

    /// True when this is `Now` or a day that exists. Every date that
    /// executable code can hold is valid.
    pub open spec fn is_valid(self) -> bool {
        match self {
            GameDate::Now => true,
            GameDate::Date(date) => date.is_valid(),
        }
    }

    /// What `text` stands for: `Now` for the word `now`, the day for a date
    /// written as `YYYY-MM-DD` that exists, and nothing for any other text.
    pub closed spec fn parsed(text: Seq<char>) -> Option<GameDate> {
        if text == "now"@ {
            Some(GameDate::Now)
        } else {
            match parse_iso_date(text) {
                Some((year, month, day)) => Some(
                    GameDate::Date(
                        CivilDate { year: year as i32, month: month as u32, day: day as u32 },
                    ),
                ),
                None => None,
            }
        }
    }

    /// What can be known of [`GameDate::parsed`]: which texts stand for a
    /// date, and for which one.
    pub proof fn lemma_parsed(text: Seq<char>)
        ensures
            Self::parsed(text) is Some <==> (text == "now"@ || parse_iso_date(text) is Some),
            text == "now"@ ==> Self::parsed(text) == Some(GameDate::Now),
            text != "now"@ ==> (parse_iso_date(text) matches Some((year, month, day))
                ==> (Self::parsed(text) matches Some(GameDate::Date(date)) && date.spec_year()
                == year && date.spec_month() == month && date.spec_day() == day
                && date.is_valid())),
    {
    }

    /// A valid date of the years 0 to 9999, written for the API and parsed
    /// again, is the same date; and so is `Now`.
    pub proof fn lemma_parse_inverts_format(date: GameDate)
        requires
            date.is_valid(),
            date matches GameDate::Date(day) ==> 0 <= day.spec_year() <= 9999,
        ensures
            Self::parsed(date.api_text()) == Some(date),
    {
        match date {
            GameDate::Now => {},
            GameDate::Date(day) => {
                crate::calendar::lemma_written_date_reads_back(
                    day.spec_year(),
                    day.spec_month(),
                    day.spec_day(),
                );
                reveal_strlit("now");
                assert(date.api_text().len() == 10);
                assert("now"@.len() == 3);
            },
        }
    }

    /// Today's date in the local time zone, as a given day.
    pub fn today() -> (date: GameDate)
        ensures
            date is Date,
            date.is_valid(),
    {
        GameDate::Date(CivilDate::today())
    }

    /// The given day.
    pub fn from_date(date: CivilDate) -> (wrapped: GameDate)
        ensures
            wrapped == GameDate::Date(date),
    {
        GameDate::Date(date)
    }

    /// The day of the given year, month and day, if it exists.
    pub fn from_ymd(year: i32, month: u32, day: u32) -> (date: Option<GameDate>)
        ensures
            date is Some <==> is_calendar_date(year as int, month as int, day as int),
            date matches Some(found) ==> (found matches GameDate::Date(d) && d.spec_year() == year
                && d.spec_month() == month && d.spec_day() == day && d.is_valid()),
    {
        match CivilDate::from_ymd(year, month, day) {
            Some(date) => Some(GameDate::Date(date)),
            None => None,
        }
    }

    /// This date as the API writes it: `now`, or `YYYY-MM-DD`.
    pub fn to_api_string(&self) -> (text: String)
        ensures
            text@ == self.api_text(),
    {
        match self {
            GameDate::Now => String::from_str("now"),
            GameDate::Date(date) => date.to_api_string(),
        }
    }

    /// This date as text: as the API writes it.
    pub fn to_string(&self) -> (text: String)
        ensures
            text@ == self.api_text(),
    {
        self.to_api_string()
    }

    /// This date as a day: the day itself, or today for `Now`.
    pub fn as_date(&self) -> (date: CivilDate)
        ensures
            date.is_valid(),
            *self matches GameDate::Date(day) ==> date == day,
    {
        match self {
            GameDate::Now => CivilDate::today(),
            GameDate::Date(date) => {
                proof {
                    use_type_invariant(date);
                }
                *date
            },
        }
    }

    /// The day `days` days after this date, or before it for a negative
    /// number. `Now` is first taken as today. The result is always a given
    /// day; it is `None` only when that day lies outside the range of dates.
    pub fn add_days(&self, days: i64) -> (sum: Option<GameDate>)
        ensures
            sum matches Some(date) ==> date is Date && date.is_valid(),
            *self matches GameDate::Date(day) ==> {
                &&& sum is Some <==> first_day_number() <= day.spec_day_number() + days
                    <= last_day_number()
                &&& sum matches Some(GameDate::Date(moved)) ==> moved.spec_day_number()
                    == day.spec_day_number() + days
                &&& days == 0 ==> sum == Some(*self)
            },
    {
        match self.as_date().add_days(days) {
            Some(date) => Some(GameDate::Date(date)),
            None => None,
        }
    }

    /// Reads a date as the API writes it: the word `now`, or a day that
    /// exists written as `YYYY-MM-DD`. Anything else is an error that
    /// carries the text.
    pub fn from_str(s: &str) -> (parsed: Result<GameDate, ParseDateError>)
        ensures
            parsed is Ok <==> Self::parsed(s@) is Some,
            parsed matches Ok(date) ==> Some(date) == Self::parsed(s@) && date.is_valid(),
            parsed matches Err(error) ==> error.0@ == s@,
    {
        if str_eq(s, "now") {
            return Ok(GameDate::Now);
        }
        let len = s.unicode_len();
        if len != 10 {
            return Err(ParseDateError(String::from_str(s)));
        }
        if s.get_char(4) != '-' || s.get_char(7) != '-' {
            return Err(ParseDateError(String::from_str(s)));
        }
        let (year, month, day) = match (read_digits(s, 0, 4), read_digits(s, 5, 2), read_digits(
            s,
            8,
            2,
        )) {
            (Some(year), Some(month), Some(day)) => (year, month, day),
            _ => {
                return Err(ParseDateError(String::from_str(s)));
            },
        };
        assert(has_iso_date_shape(s@));
        assert(year <= 9999) by {
            reveal_with_fuel(digits_value, 5);
        }
        match CivilDate::from_ymd(year as i32, month, day) {
            Some(date) => Ok(GameDate::Date(date)),
            None => Err(ParseDateError(String::from_str(s))),
        }
    }
}

impl core::str::FromStr for GameDate {
    type Err = ParseDateError;

    fn from_str(s: &str) -> (parsed: Result<GameDate, ParseDateError>)
        ensures
            parsed is Ok <==> GameDate::parsed(s@) is Some,
            parsed matches Ok(date) ==> Some(date) == GameDate::parsed(s@) && date.is_valid(),
            parsed matches Err(error) ==> error.0@ == s@,
    {
        GameDate::from_str(s)
    }
}

/// The month in which a season begins: October.
pub const SEASON_START_MONTH: u32 = 10;

/// The start year of the season that a day of the given year and month
/// belongs to. A season spans two calendar years and begins in October, so
/// a day before October still belongs to the season that began the year
/// before. The year is reduced to the sixteen bits that a season holds.
pub open spec fn season_start_year(year: int, month: int) -> int {
    if month < SEASON_START_MONTH {
        (year - 1) % 65536
    } else {
        year % 65536
    }
}

/// A season, named by the year in which it begins. It ends in the year
/// after, which is therefore not stored.
#[derive(Debug, Clone, Copy, PartialEq, Eq, Hash, Structural)]
pub struct Season {
    /// The year in which the season begins.
    pub start_year: u16,
}

impl Season {
    /// This season as the API writes it: the start year, then the end year.
    pub open spec fn text(self) -> Seq<char> {
        decimal_digits(self.start_year as nat) + decimal_digits((self.start_year + 1) as nat)
    }

    /// The season that `text` stands for: eight digits, of which the last
    /// four are the year after the first four. Anything else stands for no
    /// season.
    pub open spec fn parsed(text: Seq<char>) -> Option<Season> {
        if text.len() == 8 && (forall|i: int| 0 <= i < 8 ==> is_digit_char(text[i]))
            && digits_value(text, 4, 4) == digits_value(text, 0, 4) + 1 {
            Some(Season { start_year: digits_value(text, 0, 4) as u16 })
        } else {
            None
        }
    }

    /// A season that begins in a year of four digits and ends in one,
    /// written for the API and parsed again, is the same season.
    pub proof fn lemma_parse_inverts_format(season: Season)
        requires
            1000 <= season.start_year <= 9998,
        ensures
            season.text().len() == 8,
            Self::parsed(season.text()) == Some(season),
    {
        let start = season.start_year as int;
        let end = start + 1;
        let text = season.text();
        reveal_with_fuel(decimal_digits, 5);
        reveal_with_fuel(digits_value, 5);
        assert(decimal_digits(start as nat) =~= crate::calendar::four_digits(start));
        assert(decimal_digits(end as nat) =~= crate::calendar::four_digits(end));
        assert(text =~= crate::calendar::four_digits(start) + crate::calendar::four_digits(end));
        crate::calendar::lemma_digit_char_value(start / 1000);
        crate::calendar::lemma_digit_char_value((start / 100) % 10);
        crate::calendar::lemma_digit_char_value((start / 10) % 10);
        crate::calendar::lemma_digit_char_value(start % 10);
        crate::calendar::lemma_digit_char_value(end / 1000);
        crate::calendar::lemma_digit_char_value((end / 100) % 10);
        crate::calendar::lemma_digit_char_value((end / 10) % 10);
        crate::calendar::lemma_digit_char_value(end % 10);
        assert(text[0] == crate::text::digit_char(start / 1000));
        assert(text[1] == crate::text::digit_char((start / 100) % 10));
        assert(text[2] == crate::text::digit_char((start / 10) % 10));
        assert(text[3] == crate::text::digit_char(start % 10));
        assert(text[4] == crate::text::digit_char(end / 1000));
        assert(text[5] == crate::text::digit_char((end / 100) % 10));
        assert(text[6] == crate::text::digit_char((end / 10) % 10));
        assert(text[7] == crate::text::digit_char(end % 10));
        assert(digits_value(text, 0, 4) == start);
        assert(digits_value(text, 4, 4) == end);
    }

    /// The season that begins in `start_year`.
    pub fn new(start_year: u16) -> (season: Season)
        ensures
            season.start_year == start_year,
    {
        Season { start_year }
    }

    /// The season that begins in `start_year` and ends in `end_year`, which
    /// has to be the year after.
    pub fn from_years(start_year: u16, end_year: u16) -> (season: Season)
        requires
            end_year == start_year + 1,
        ensures
            season.start_year == start_year,
    {
        Season { start_year }
    }

    /// The year in which the season ends: the year after it begins.
    pub fn end_year(&self) -> (year: u16)
        requires
            self.start_year < u16::MAX,
        ensures
            year == self.start_year + 1,
    {
        self.start_year + 1
    }

    /// This season as the API writes it: the start year, then the end year.
    pub fn to_api_string(&self) -> (text: String)
        requires
            self.start_year < u16::MAX,
        ensures
            text@ == self.text(),
    {
        let mut text = u64_to_string(self.start_year as u64);
        let end = u64_to_string(self.end_year() as u64);
        text.append(end.as_str());
        text
    }

    /// This season as text: as the API writes it.
    pub fn to_string(&self) -> (text: String)
        requires
            self.start_year < u16::MAX,
        ensures
            text@ == self.text(),
    {
        self.to_api_string()
    }

    /// Reads a season as the API writes it: eight digits, the last four
    /// being the year after the first four.
    pub fn from_str(s: &str) -> (season: Option<Season>)
        ensures
            season == Self::parsed(s@),
    {
        let len = s.unicode_len();
        if len != 8 {
            return None;
        }
        let (start_year, end_year) = match (read_digits(s, 0, 4), read_digits(s, 4, 4)) {
            (Some(start_year), Some(end_year)) => (start_year, end_year),
            _ => {
                return None;
            },
        };
        assert(start_year <= 9999 && end_year <= 9999) by {
            reveal_with_fuel(digits_value, 5);
        }
        if end_year != start_year + 1 {
            return None;
        }
        Some(Season { start_year: start_year as u16 })
    }

    /// The season that the day `today` belongs to: the one that began in
    /// October of that year or, for a day before October, of the year before.
    pub fn for_date(today: &CivilDate) -> (season: Season)
        ensures
            season.start_year == season_start_year(today.spec_year(), today.spec_month()),
            1 <= today.spec_year() <= 65535 ==> season.start_year == if today.spec_month()
                < SEASON_START_MONTH {
                today.spec_year() - 1
            } else {
                today.spec_year()
            },
    {
        let year: i32 = if today.month() < SEASON_START_MONTH {
            today.year() - 1
        } else {
            today.year()
        };
        let reduced: i32 = if year >= 0 {
            year % 65536
        } else {
            let below: i32 = (-year) % 65536;
            if below == 0 {
                0
            } else {
                65536 - below
            }
        };
        assert(reduced == year as int % 65536);
        Season { start_year: reduced as u16 }
    }

    /// The season that today belongs to. Which day today is depends on the
    /// clock; whichever it is, the season is the one of that day.
    pub fn current() -> (season: Season)
        ensures
            exists|today: CivilDate|
                today.is_valid() && season.start_year == season_start_year(
                    #[trigger] today.spec_year(),
                    today.spec_month(),
                ),
    {
        Season::for_date(&CivilDate::today())
    }
}

} // verus!
