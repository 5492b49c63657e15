//! Calendar dates in the registry's eight-digit `YYYYMMDD` form.

use crate::error::MyValidationError;
use crate::json::{text_of_json, Json, JsonView};
use crate::text::{all_digits, digit_char, digit_str, digit_value, is_digit_code, is_digit_code_str};
use vstd::arithmetic::div_mod::lemma_fundamental_div_mod_converse;
use vstd::prelude::*;
use vstd::string::*;

verus! {

broadcast use vstd::string::group_string_axioms;

/// Whether `year` is a leap year of the proleptic Gregorian calendar.
pub open spec fn is_leap_year(year: int) -> bool {
    year % 4 == 0 && (year % 100 != 0 || year % 400 == 0)
}

/// The number of days of `month` in `year`; zero when there is no such month.
pub open spec fn days_in_month(year: int, month: int) -> int {
    if month == 2 {
        if is_leap_year(year) {
            29
        } else {
            28
        }
    } else if month == 4 || month == 6 || month == 9 || month == 11 {
        30
    } else if 1 <= month <= 12 {
        31
    } else {
        0
    }
}

/// Whether the proleptic Gregorian calendar has the day `year`-`month`-`day`.
pub open spec fn is_calendar_date(year: int, month: int, day: int) -> bool {
    1 <= month <= 12 && 1 <= day <= days_in_month(year, month)
}

/// Plain-value model of a [`Date`].
pub struct DateView {
    pub year: int,
    pub month: int,
    pub day: int,
}

/// Whether `d` is a date this library can hold: a day of the calendar in
/// the years 0 to 9999.
pub open spec fn is_date(d: DateView) -> bool {
    0 <= d.year <= 9999 && is_calendar_date(d.year, d.month, d.day)
}

/// The number that the digits of `s` from `from` up to `to` denote.
pub open spec fn digits_value(s: Seq<char>, from: int, to: int) -> int
    decreases to - from,
{
    if to <= from {
        0
    } else {
        digits_value(s, from, to - 1) * 10 + digit_value(s[to - 1])
    }
}

/// The date that the text `s` denotes, if it denotes one: `s` is eight
/// decimal digits, four of the year, two of the month and two of the day,
/// and the calendar has that day.
pub open spec fn date_of(s: Seq<char>) -> Option<DateView> {
    let d = DateView {
        year: digits_value(s, 0, 4),
        month: digits_value(s, 4, 6),
        day: digits_value(s, 6, 8),
    };
    if is_digit_code(s, 8) && is_calendar_date(d.year, d.month, d.day) {
        Some(d)
    } else {
        None
    }
}

/// The eight digits that denote the date `d`.
pub open spec fn wire_of(d: DateView) -> Seq<char> {
    seq![
        digit_char((d.year / 1000 % 10) as nat),
        digit_char((d.year / 100 % 10) as nat),
        digit_char((d.year / 10 % 10) as nat),
        digit_char((d.year % 10) as nat),
        digit_char((d.month / 10 % 10) as nat),
        digit_char((d.month % 10) as nat),
        digit_char((d.day / 10 % 10) as nat),
        digit_char((d.day % 10) as nat),
    ]
}

/// The ten characters that show the date `d` with hyphens, `YYYY-MM-DD`.
pub open spec fn iso_of(d: DateView) -> Seq<char> {
    seq![
        digit_char((d.year / 1000 % 10) as nat),
        digit_char((d.year / 100 % 10) as nat),
        digit_char((d.year / 10 % 10) as nat),
        digit_char((d.year % 10) as nat),
        '-',
        digit_char((d.month / 10 % 10) as nat),
        digit_char((d.month % 10) as nat),
        '-',
        digit_char((d.day / 10 % 10) as nat),
        digit_char((d.day % 10) as nat),
    ]
}

/// The eight digits of a text in the form `YYYY-MM-DD`, without its
/// hyphens.
pub open spec fn without_hyphens(s: Seq<char>) -> Seq<char> {
    s.subrange(0, 4) + s.subrange(5, 7) + s.subrange(8, 10)
}

/// The date that the text `s` in the form `YYYY-MM-DD` denotes, if it
/// denotes one.
pub open spec fn iso_date_of(s: Seq<char>) -> Option<DateView> {
    if s.len() == 10 && s[4] == '-' && s[7] == '-' {
        date_of(without_hyphens(s))
    } else {
        None
    }
}

/// The message of the error that rejects a text as a date.
pub open spec fn date_message() -> Seq<char> {
    "date must be a calendar day in the form YYYYMMDD"@
}

/// Whether the calendar has the given day.
///
/// Wraps chrono's `NaiveDate::from_ymd_opt`, which returns a date exactly for
/// the days that exist in the proleptic Gregorian calendar, as long as the
/// year is within chrono's range; the years 0 to 9999 are.
#[verifier::external_body]
fn calendar_has(year: i32, month: u32, day: u32) -> (r: bool)
    requires
        0 <= year <= 9999,
    ensures
        r == is_calendar_date(year as int, month as int, day as int),
{
    chrono::NaiveDate::from_ymd_opt(year, month, day).is_some()
}

/// A day of the calendar, between the years 0 and 9999.
#[derive(Debug, Clone, Copy, Eq, PartialEq, Ord, PartialOrd, Hash)]
pub struct Date {
    year: u16,
    month: u8,
    day: u8,
}

impl View for Date {
    type V = DateView;

    closed spec fn view(&self) -> DateView {
        DateView { year: self.year as int, month: self.month as int, day: self.day as int }
    }
}

impl Date {
    #[verifier::type_invariant]
    spec fn well_formed(&self) -> bool {
        is_date(self@)
    }

    /// The date of the given year, month and day, if the calendar has that
    /// day and the year is at most 9999.
    pub fn from_ymd(year: u16, month: u8, day: u8) -> (r: Option<Date>)
        ensures
            r is Some <==> is_date(
                DateView { year: year as int, month: month as int, day: day as int },
            ),
            r matches Some(d) ==> d@ == (DateView {
                year: year as int,
                month: month as int,
                day: day as int,
            }),
    {
        if year <= 9999 && calendar_has(year as i32, month as u32, day as u32) {
            Some(Date { year, month, day })
        } else {
            None
        }
    }

    /// The date of the year, month and day that a clock or a calendar of
    /// wider range shows, if the calendar has that day and the year lies
    /// between 0 and 9999.
    pub fn from_civil(year: i32, month: u32, day: u32) -> (r: Option<Date>)
        ensures
            r is Some <==> is_date(
                DateView { year: year as int, month: month as int, day: day as int },
            ),
            r matches Some(d) ==> d@ == (DateView {
                year: year as int,
                month: month as int,
                day: day as int,
            }),
    {
        if 0 <= year && year <= 9999 && month <= 12 && day <= 31 {
            Date::from_ymd(year as u16, month as u8, day as u8)
        } else {
            None
        }
    }

    /// Reads a date from its eight-digit form.
    ///
    /// Succeeds exactly when `value` denotes a date, and the result is then
    /// that date. Otherwise the error carries `value`.
    pub fn from_str(value: &str) -> (r: Result<Date, MyValidationError>)
        ensures
            r is Ok <==> date_of(value@) is Some,
            r matches Ok(d) ==> Some(d@) == date_of(value@),
            r matches Err(e) ==> e.value@ == value@ && e.message@ == date_message(),
    {
        if !is_digit_code_str(value, 8) {
            return Err(
                MyValidationError::new(value, "date must be a calendar day in the form YYYYMMDD"),
            );
        }
        assert(is_ascii(value)) by {
            assert forall|i: int| 0 <= i < value@.len() implies '\0' <= #[trigger] value@[i]
                <= '\u{7f}' by {
                assert(crate::text::is_digit_char(value@[i]));
            }
        }
        let year = Self::number(value, 0, 4);
        let month = Self::number(value, 4, 6);
        let day = Self::number(value, 6, 8);
        match Date::from_ymd(year, month as u8, day as u8) {
            Some(d) => Ok(d),
            None => Err(
                MyValidationError::new(value, "date must be a calendar day in the form YYYYMMDD"),
            ),
        }
    }

    /// Reads a date from its form with hyphens, `YYYY-MM-DD`.
    ///
    /// Succeeds exactly when `value` denotes a date, and the result is then
    /// that date. Otherwise the error carries `value`.
    pub fn from_iso(value: &str) -> (r: Result<Date, MyValidationError>)
        ensures
            r is Ok <==> iso_date_of(value@) is Some,
            r matches Ok(d) ==> Some(d@) == iso_date_of(value@),
            r matches Err(e) ==> e.value@ == value@ && e.message@
                == "date must be a calendar day in the form YYYY-MM-DD"@,
    {
        if value.unicode_len() == 10 && value.get_char(4) == '-' && value.get_char(7) == '-' {
            let digits = value.substring_char(0, 4).to_owned().concat(
                value.substring_char(5, 7),
            ).concat(value.substring_char(8, 10));
            if let Ok(date) = Date::from_str(digits.as_str()) {
                return Ok(date);
            }
        }
        Err(MyValidationError::new(value, "date must be a calendar day in the form YYYY-MM-DD"))
    }

    /// The number that the digits of `value` from `from` up to `to` denote.
    fn number(value: &str, from: usize, to: usize) -> (r: u16)
        requires
            is_ascii(value),
            all_digits(value@),
            from <= to <= value@.len(),
            to - from <= 4,
        ensures
            r == digits_value(value@, from as int, to as int),
            to - from <= 2 ==> r <= 99,
            r <= 9999,
    {
        let mut acc: u16 = 0;
        let mut i: usize = from;
        while i < to
            invariant
                is_ascii(value),
                all_digits(value@),
                from <= i <= to <= value@.len(),
                to - from <= 4,
                acc == digits_value(value@, from as int, i as int),
                i - from == 0 ==> acc == 0,
                i - from == 1 ==> acc <= 9,
                i - from == 2 ==> acc <= 99,
                i - from == 3 ==> acc <= 999,
                i - from == 4 ==> acc <= 9999,
            decreases to - i,
        {
            let b = value.get_ascii(i);
            assert(crate::text::is_digit_char(value@[i as int]));
            acc = acc * 10 + (b - 48) as u16;
            i = i + 1;
        }
        acc
    }

    /// The year, from 0 to 9999.
    pub fn year(&self) -> (r: u16)
        ensures
            r == self@.year,
    {
        self.year
    }

    /// The month, from 1 to 12.
    pub fn month(&self) -> (r: u8)
        ensures
            r == self@.month,
    {
        self.month
    }

    /// The day of the month, from 1.
    pub fn day(&self) -> (r: u8)
        ensures
            r == self@.day,
            is_date(self@),
    {
        proof {
            use_type_invariant(self);
        }
        self.day
    }

    /// Whether this date is `other` or a day before it.
    pub fn is_on_or_before(&self, other: &Date) -> (r: bool)
        ensures
            r == date_le(self@, other@),
    {
        self.year < other.year || (self.year == other.year && (self.month < other.month || (
        self.month == other.month && self.day <= other.day)))
    }

    /// The date as it travels on the wire: eight digits, `YYYYMMDD`.
    pub fn as_wire(&self) -> (r: String)
        ensures
            r@ == wire_of(self@),
            is_date(self@),
    {
        proof {
            use_type_invariant(self);
        }
        let y = self.year;
        let out = digit_str((y / 1000 % 10) as u8).to_owned();
        let out = out.concat(digit_str((y / 100 % 10) as u8));
        let out = out.concat(digit_str((y / 10 % 10) as u8));
        let out = out.concat(digit_str((y % 10) as u8));
        let out = out.concat(digit_str(self.month / 10 % 10));
        let out = out.concat(digit_str(self.month % 10));
        let out = out.concat(digit_str(self.day / 10 % 10));
        let out = out.concat(digit_str(self.day % 10));
        assert(out@ =~= wire_of(self@));
        out
    }

    /// The date as a JSON value: the string of its wire form.
    pub fn to_json(&self) -> (r: Json)
        ensures
            r@ == JsonView::Text(wire_of(self@)),
    {
        Json::Text(self.as_wire())
    }

    /// Reads a date from a JSON value. A string is read as
    /// [`Self::from_str`] reads it; any other value is rejected.
    pub fn from_json(value: &Json) -> (r: Result<Self, MyValidationError>)
        ensures
            match text_of_json(value@) {
                Some(text) => {
                    &&& r is Ok <==> date_of(text) is Some
                    &&& r matches Ok(d) ==> Some(d@) == date_of(text)
                    &&& r matches Err(e) ==> e.value@ == text && e.message@ == date_message()
                },
                None => r matches Err(e) && e.value@ == Seq::<char>::empty() && e.message@
                    == "a JSON string is expected"@,
            },
    {
        match value.as_text() {
            Some(text) => Self::from_str(text.as_str()),
            None => {
                proof {
                    reveal_strlit("");
                    assert(""@ =~= Seq::<char>::empty());
                }
                Err(MyValidationError::new("", "a JSON string is expected"))
            },
        }
    }

    /// The date rendered for display: with hyphens, `YYYY-MM-DD`.
    pub fn to_string(&self) -> (r: String)
        ensures
            r@ == iso_of(self@),
    {
        let y = self.year;
        let out = digit_str((y / 1000 % 10) as u8).to_owned();
        let out = out.concat(digit_str((y / 100 % 10) as u8));
        let out = out.concat(digit_str((y / 10 % 10) as u8));
        let out = out.concat(digit_str((y % 10) as u8));
        let out = out.concat("-");
        let out = out.concat(digit_str(self.month / 10 % 10));
        let out = out.concat(digit_str(self.month % 10));
        let out = out.concat("-");
        let out = out.concat(digit_str(self.day / 10 % 10));
        let out = out.concat(digit_str(self.day % 10));
        proof {
            reveal_strlit("-");
        }
        assert(out@ =~= iso_of(self@));
        out
    }

    /// Every date is read back from its own wire form, and from its form
    /// with hyphens.
    #[verifier::rlimit(40)]
    pub proof fn lemma_wire_round_trip(d: DateView)
        requires
            is_date(d),
        ensures
            date_of(wire_of(d)) == Some(d),
            iso_date_of(iso_of(d)) == Some(d),
    {
        reveal_with_fuel(digits_value, 5);
        assert(d.month <= 12 && d.day <= 31);
        lemma_number_of_digits(d.year);
        lemma_number_of_digits(d.month);
        lemma_number_of_digits(d.day);
        let w = wire_of(d);
        assert(digits_value(w, 0, 4) == d.year);
        assert(digits_value(w, 4, 6) == d.month);
        assert(digits_value(w, 6, 8) == d.day);
        assert(crate::text::all_digits(w));
        assert(without_hyphens(iso_of(d)) =~= w);
    }

    /// The text that denotes a date is the wire form of that date: no two
    /// texts denote the same date.
    #[verifier::rlimit(40)]
    pub proof fn lemma_wire_is_unique(s: Seq<char>)
        requires
            date_of(s) is Some,
        ensures
            wire_of(date_of(s)->0) == s,
    {
        reveal_with_fuel(digits_value, 5);
        let d = date_of(s)->0;
        let w = wire_of(d);
        assert forall|i: int| 0 <= i < 8 implies digit_char(digit_value(#[trigger] s[i])) == s[i]
            && digit_value(s[i]) < 10 by {
            lemma_digit_char_of_value(s[i]);
        }
        lemma_digits_of_number(
            digit_value(s[0]),
            digit_value(s[1]),
            digit_value(s[2]),
            digit_value(s[3]),
        );
        lemma_digits_of_number(0, 0, digit_value(s[4]), digit_value(s[5]));
        lemma_digits_of_number(0, 0, digit_value(s[6]), digit_value(s[7]));
        assert(w[0] == s[0]);
        assert(w[1] == s[1]);
        assert(w[2] == s[2]);
        assert(w[3] == s[3]);
        assert(w[4] == s[4]);
        assert(w[5] == s[5]);
        assert(w[6] == s[6]);
        assert(w[7] == s[7]);
        assert(w =~= s);
    }
}

/// A digit is the character of its own value.
proof fn lemma_digit_char_of_value(c: char)
    requires
        crate::text::is_digit_char(c),
    ensures
        digit_value(c) < 10,
        digit_char(digit_value(c)) == c,
{
}

/// The digits of a number of four digits are those it was made of.
proof fn lemma_digits_of_number(a: nat, b: nat, c: nat, d: nat)
    requires
        a < 10,
        b < 10,
        c < 10,
        d < 10,
    ensures
        (a * 1000 + b * 100 + c * 10 + d) / 1000 % 10 == a,
        (a * 1000 + b * 100 + c * 10 + d) / 100 % 10 == b,
        (a * 1000 + b * 100 + c * 10 + d) / 10 % 10 == c,
        (a * 1000 + b * 100 + c * 10 + d) % 10 == d,
{
    let n = (a * 1000 + b * 100 + c * 10 + d) as int;
    lemma_fundamental_div_mod_converse(n, 10, (a * 100 + b * 10 + c) as int, d as int);
    lemma_fundamental_div_mod_converse(
        (a * 100 + b * 10 + c) as int,
        10,
        (a * 10 + b) as int,
        c as int,
    );
    lemma_fundamental_div_mod_converse(n, 100, (a * 10 + b) as int, (c * 10 + d) as int);
    lemma_fundamental_div_mod_converse((a * 10 + b) as int, 10, a as int, b as int);
    lemma_fundamental_div_mod_converse(n, 1000, a as int, (b * 100 + c * 10 + d) as int);
    lemma_fundamental_div_mod_converse(a as int, 10, 0, a as int);
}

/// The number that the digits of a number of four digits denote is that
/// number.
proof fn lemma_number_of_digits(n: int)
    requires
        0 <= n <= 9999,
    ensures
        (n / 1000 % 10) * 1000 + (n / 100 % 10) * 100 + (n / 10 % 10) * 10 + n % 10 == n,
        0 <= n / 1000 % 10 < 10,
        0 <= n / 100 % 10 < 10,
        0 <= n / 10 % 10 < 10,
        0 <= n % 10 < 10,
{
    let a = n / 1000;
    let r = n % 1000;
    let b = r / 100;
    let s = r % 100;
    let c = s / 10;
    let d = s % 10;
    assert(n == a * 1000 + b * 100 + c * 10 + d);
    assert(0 <= a < 10 && 0 <= b < 10 && 0 <= c < 10 && 0 <= d < 10);
    lemma_digits_of_number(a as nat, b as nat, c as nat, d as nat);
}

/// Whether the date `a` is `b` or a day before it.
pub open spec fn date_le(a: DateView, b: DateView) -> bool {
    a.year < b.year || (a.year == b.year && (a.month < b.month || (a.month == b.month && a.day
        <= b.day)))
}

} // verus!
