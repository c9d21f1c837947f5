use vstd::prelude::*;
use vstd::string::StringExecFns;

use crate::config::RideWeekday;

use chrono::Datelike;

verus! {

/// A calendar date in the proleptic Gregorian calendar, held as plain values.
///
/// Valid dates (see [`Date::valid`]) range from 0001-01-01 to 9999-12-31, so
/// the year always formats as four digits.
#[derive(Clone, Copy, Debug, PartialEq, Eq, Structural)]
pub struct Date {
    pub year: u32,
    pub month: u32,
    pub day: u32,
}

pub open spec fn is_leap_year(y: int) -> bool {
    (y % 4 == 0 && y % 100 != 0) || y % 400 == 0
}

pub open spec fn spec_days_in_month(y: int, m: int) -> int {
    if m == 2 {
        if is_leap_year(y) {
            29
        } else {
            28
        }
    } else if m == 4 || m == 6 || m == 9 || m == 11 {
        30
    } else {
        31
    }
}

fn leap_year(y: u32) -> (r: bool)
    ensures
        r == is_leap_year(y as int),
{
    (y % 4 == 0 && y % 100 != 0) || y % 400 == 0
}

fn days_in_month(y: u32, m: u32) -> (r: u32)
    requires
        1 <= m <= 12,
    ensures
        r as int == spec_days_in_month(y as int, m as int),
{
    if m == 2 {
        if leap_year(y) {
            29
        } else {
            28
        }
    } else if m == 4 || m == 6 || m == 9 || m == 11 {
        30
    } else {
        31
    }
}

impl Date {
    pub open spec fn valid(self) -> bool {
        &&& 1 <= self.year <= 9999
        &&& 1 <= self.month <= 12
        &&& 1 <= self.day <= spec_days_in_month(self.year as int, self.month as int)
    }

    /// The next calendar date: one day later.
    pub open spec fn spec_succ(self) -> Date {
        if self.day < spec_days_in_month(self.year as int, self.month as int) {
            Date { year: self.year, month: self.month, day: (self.day + 1) as u32 }
        } else if self.month < 12 {
            Date { year: self.year, month: (self.month + 1) as u32, day: 1 }
        } else {
            Date { year: (self.year + 1) as u32, month: 1, day: 1 }
        }
    }

    pub fn succ(self) -> (r: Date)
        requires
            self.valid(),
            !(self.year == 9999 && self.month == 12 && self.day == 31),
        ensures
            r == self.spec_succ(),
            r.valid(),
    {
        let dim = days_in_month(self.year, self.month);
        if self.day < dim {
            Date { year: self.year, month: self.month, day: self.day + 1 }
        } else if self.month < 12 {
            Date { year: self.year, month: self.month + 1, day: 1 }
        } else {
            Date { year: self.year + 1, month: 1, day: 1 }
        }
    }

    /// The date formatted as `YYYY-MM-DD`, as a sequence of characters.
    pub open spec fn spec_iso(self) -> Seq<char> {
        spec_four_digits(self.year as int) + seq!['-'] + spec_two_digits(self.month as int)
            + seq!['-'] + spec_two_digits(self.day as int)
    }

    /// Formats the date as `YYYY-MM-DD`, with zero-padded fields.
    pub fn format_iso(&self) -> (r: String)
        requires
            self.valid(),
        ensures
            r@ == self.spec_iso(),
    {
        let mut r = String::new();
        r.append(digit_str(self.year / 1000));
        r.append(digit_str((self.year / 100) % 10));
        r.append(digit_str((self.year / 10) % 10));
        r.append(digit_str(self.year % 10));
        r.append("-");
        r.append(digit_str(self.month / 10));
        r.append(digit_str(self.month % 10));
        r.append("-");
        r.append(digit_str(self.day / 10));
        r.append(digit_str(self.day % 10));
        proof {
            reveal_strlit("-");
            assert("-"@ =~= seq!['-']);
            assert(r@ =~= self.spec_iso());
        }
        r
    }
}

pub open spec fn spec_digit_char(d: int) -> char {
    if d == 0 {
        '0'
    } else if d == 1 {
        '1'
    } else if d == 2 {
        '2'
    } else if d == 3 {
        '3'
    } else if d == 4 {
        '4'
    } else if d == 5 {
        '5'
    } else if d == 6 {
        '6'
    } else if d == 7 {
        '7'
    } else if d == 8 {
        '8'
    } else {
        '9'
    }
}

pub open spec fn spec_two_digits(n: int) -> Seq<char> {
    seq![spec_digit_char(n / 10), spec_digit_char(n % 10)]
}

pub open spec fn spec_four_digits(n: int) -> Seq<char> {
    seq![
        spec_digit_char(n / 1000),
        spec_digit_char((n / 100) % 10),
        spec_digit_char((n / 10) % 10),
        spec_digit_char(n % 10),
    ]
}

fn digit_str(d: u32) -> (s: &'static str)
    requires
        d < 10,
    ensures
        s@ == seq![spec_digit_char(d as int)],
{
    proof {
        reveal_strlit("0");
        reveal_strlit("1");
        reveal_strlit("2");
        reveal_strlit("3");
        reveal_strlit("4");
        reveal_strlit("5");
        reveal_strlit("6");
        reveal_strlit("7");
        reveal_strlit("8");
        reveal_strlit("9");
        assert("0"@ =~= seq!['0']);
        assert("1"@ =~= seq!['1']);
        assert("2"@ =~= seq!['2']);
        assert("3"@ =~= seq!['3']);
        assert("4"@ =~= seq!['4']);
        assert("5"@ =~= seq!['5']);
        assert("6"@ =~= seq!['6']);
        assert("7"@ =~= seq!['7']);
        assert("8"@ =~= seq!['8']);
        assert("9"@ =~= seq!['9']);
    }
    if d == 0 {
        "0"
    } else if d == 1 {
        "1"
    } else if d == 2 {
        "2"
    } else if d == 3 {
        "3"
    } else if d == 4 {
        "4"
    } else if d == 5 {
        "5"
    } else if d == 6 {
        "6"
    } else if d == 7 {
        "7"
    } else if d == 8 {
        "8"
    } else {
        "9"
    }
}

/// The weekday of the calendar date with the given year, month and day,
/// counted in days after Monday (Monday is 0, Sunday is 6). The calendar
/// fixes this value; the library does not compute it itself but reads it
/// off chrono (see [`chrono_weekday`]).
pub uninterp spec fn weekday_num(y: int, m: int, d: int) -> int;

pub open spec fn date_weekday_num(d: Date) -> int {
    weekday_num(d.year as int, d.month as int, d.day as int)
}

/// Relies on chrono's `NaiveDate::from_ymd_opt`, `NaiveDate::weekday` and
/// `Weekday::num_days_from_monday`: the weekday of a calendar date is a
/// function of year, month and day alone, it lies in 0..=6 counted from
/// Monday, and it advances by one, cyclically, from one calendar date to
/// the next.
#[verifier::external_body]
fn chrono_weekday(d: &Date) -> (r: u8)
    requires
        d.valid(),
    ensures
        0 <= r < 7,
        r as int == weekday_num(d.year as int, d.month as int, d.day as int),
        weekday_num(
            d.spec_succ().year as int,
            d.spec_succ().month as int,
            d.spec_succ().day as int,
        ) == (r as int + 1) % 7,
{
    let nd = chrono::NaiveDate::from_ymd_opt(d.year as i32, d.month, d.day).unwrap();
    nd.weekday().num_days_from_monday() as u8
}

/// Relies on chrono's `Local::now` and `NaiveDate::date_naive`: whatever
/// moment the clock reports, the returned year, month and day form a valid
/// date of the proleptic Gregorian calendar. `Local::now` itself panics on a
/// system clock set before the Unix epoch; no input can exclude that, and
/// every caller reads the same clock.
#[verifier::external_body]
fn chrono_today() -> (r: (i32, u32, u32))
    ensures
        1 <= r.1 <= 12,
        1 <= r.2 as int <= spec_days_in_month(r.0 as int, r.1 as int),
{
    let now = chrono::Local::now().date_naive();
    (now.year(), now.month(), now.day())
}

/// Today's date according to the system clock, or `None` when it falls
/// outside the range this library can hold and advance (years 1 to 9998).
pub fn today() -> (r: Option<Date>)
    ensures
        r matches Some(d) ==> d.valid() && d.year <= 9998,
{
    let (y, m, d) = chrono_today();
    if 1 <= y && y <= 9998 {
        Some(Date { year: y as u32, month: m, day: d })
    } else {
        None
    }
}

/// `d` advanced by `n` calendar days.
pub open spec fn spec_succ_n(d: Date, n: nat) -> Date
    decreases n,
{
    if n == 0 {
        d
    } else {
        spec_succ_n(d, (n - 1) as nat).spec_succ()
    }
}

/// How many days lie from weekday `from` forward to the next weekday `to`,
/// both counted from Monday.
pub open spec fn wd_dist(from: int, to: int) -> int {
    if from <= to {
        to - from
    } else {
        7 - from + to
    }
}

/// The first date on or after `today` that falls on the weekday `w`: `today`
/// itself when its weekday already matches, else one of the six following
/// days, the earliest whose weekday matches.
pub fn next_date_with_weekday(today: Date, w: RideWeekday) -> (r: Date)
    requires
        today.valid(),
        today.year <= 9998,
    ensures
        r.valid(),
        date_weekday_num(r) == w.spec_index_from_monday(),
        exists|k: nat|
            k < 7 && r == spec_succ_n(today, k) && (forall|j: nat|
                j < k ==> date_weekday_num(spec_succ_n(today, j))
                    != w.spec_index_from_monday()),
{
    let target = w.index_from_monday();
    let mut cur = today;
    let ghost mut k: int = 0;
    let mut wd = chrono_weekday(&cur);
    while wd != target
        invariant
            today.valid(),
            today.year <= 9998,
            target as int == w.spec_index_from_monday(),
            target < 7,
            cur.valid(),
            wd < 7,
            wd as int == date_weekday_num(cur),
            date_weekday_num(cur.spec_succ()) == (wd as int + 1) % 7,
            0 <= k,
            0 <= date_weekday_num(today) < 7,
            cur == spec_succ_n(today, k as nat),
            forall|j: nat|
                j < k ==> date_weekday_num(spec_succ_n(today, j)) != target as int,
            k + wd_dist(wd as int, target as int) == wd_dist(
                date_weekday_num(today),
                target as int,
            ),
            cur.year as int <= today.year as int + 1,
            cur.year as int == today.year as int + 1 ==> cur.month == 1 && cur.day as int
                <= k,
        decreases wd_dist(wd as int, target as int),
    {
        cur = cur.succ();
        proof {
            k = k + 1;
            assert(spec_succ_n(today, k as nat) == spec_succ_n(today, (k - 1) as nat).spec_succ());
        }
        wd = chrono_weekday(&cur);
    }
    cur
}

} // verus!
