//! Calendar values used to name invoicing periods: years, months, month halves.
use vstd::prelude::*;

verus! {

/// A calendar year.
#[derive(Clone, Copy, Debug, PartialEq, Eq, Structural)]
pub struct Year(pub u16);

impl From<u16> for Year {
    fn from(value: u16) -> (year: Year)
        ensures
            year.0 == value,
    {
        Year(value)
    }
}

impl vstd::std_specs::convert::FromSpecImpl<u16> for Year {
    open spec fn obeys_from_spec() -> bool {
        true
    }

    open spec fn from_spec(v: u16) -> Year {
        Year(v)
    }
}

/// A month of the year.
#[derive(Clone, Copy, Debug, PartialEq, Eq, Structural)]
pub enum Month {
    January,
    February,
    March,
    April,
    May,
    June,
    July,
    August,
    September,
    October,
    November,
    December,
}

/// The number of a month, January being 1 and December 12.
pub open spec fn month_number(m: Month) -> int {
    match m {
        Month::January => 1,
        Month::February => 2,
        Month::March => 3,
        Month::April => 4,
        Month::May => 5,
        Month::June => 6,
        Month::July => 7,
        Month::August => 8,
        Month::September => 9,
        Month::October => 10,
        Month::November => 11,
        Month::December => 12,
    }
}

/// Months are numbered in calendar order, January being 1 and December
/// 12, and no two months share a number.
pub proof fn lemma_month_numbers(a: Month, b: Month)
    ensures
        month_number(Month::January) == 1,
        month_number(Month::February) == 2,
        month_number(Month::March) == 3,
        month_number(Month::April) == 4,
        month_number(Month::May) == 5,
        month_number(Month::June) == 6,
        month_number(Month::July) == 7,
        month_number(Month::August) == 8,
        month_number(Month::September) == 9,
        month_number(Month::October) == 10,
        month_number(Month::November) == 11,
        month_number(Month::December) == 12,
        month_number(a) == month_number(b) ==> a == b,
{
}

impl Month {
    /// The number of this month, from 1 (January) to 12 (December).
    pub fn number(&self) -> (n: u8)
        ensures
            n == month_number(*self),
            1 <= n <= 12,
    {
        match self {
            Month::January => 1,
            Month::February => 2,
            Month::March => 3,
            Month::April => 4,
            Month::May => 5,
            Month::June => 6,
            Month::July => 7,
            Month::August => 8,
            Month::September => 9,
            Month::October => 10,
            Month::November => 11,
            Month::December => 12,
        }
    }

    /// The month with the given number, if it lies in 1..=12.
    pub fn from_number(n: u32) -> (m: Option<Month>)
        ensures
            m.is_some() <==> 1 <= n <= 12,
            m matches Some(month) ==> month_number(month) == n,
    {
        match n {
            1 => Some(Month::January),
            2 => Some(Month::February),
            3 => Some(Month::March),
            4 => Some(Month::April),
            5 => Some(Month::May),
            6 => Some(Month::June),
            7 => Some(Month::July),
            8 => Some(Month::August),
            9 => Some(Month::September),
            10 => Some(Month::October),
            11 => Some(Month::November),
            12 => Some(Month::December),
            _ => None,
        }
    }
}


impl Month {
    /// The month before this one; January is preceded by December.
    pub fn previous(&self) -> (m: Month)
        ensures
            m == previous_month(*self),
            month_number(*self) > 1 ==> month_number(m) == month_number(*self) - 1,
            month_number(*self) == 1 ==> m == Month::December,
    {
        let n = self.number();
        if n == 1 {
            Month::December
        } else {
            match Month::from_number((n - 1) as u32) {
                Some(m) => m,
                None => Month::December,
            }
        }
    }
}

/// One of the two halves of a month.
#[derive(Clone, Copy, Debug, PartialEq, Eq, Structural)]
pub enum MonthHalf {
    /// The first half: days 1 to 15.
    First,
    /// The second half: day 16 to the end of the month.
    Second,
}

/// A month of a given year.
#[derive(Clone, Copy, Debug, PartialEq, Eq, Structural)]
pub struct YearAndMonth {
    pub year: Year,
    pub month: Month,
}

impl YearAndMonth {
    /// The given month of the given year.
    pub fn new(year: Year, month: Month) -> (ym: YearAndMonth)
        ensures
            ym.year == year,
            ym.month == month,
    {
        YearAndMonth { year, month }
    }

    /// November of the given year.
    pub fn november(year: u16) -> (ym: YearAndMonth)
        ensures
            ym.year == Year(year),
            ym.month == Month::November,
    {
        YearAndMonth { year: Year(year), month: Month::November }
    }

    /// The year.
    pub fn year(&self) -> (y: &Year)
        ensures
            *y == self.year,
    {
        &self.year
    }

    /// The month.
    pub fn month(&self) -> (m: &Month)
        ensures
            *m == self.month,
    {
        &self.month
    }
}

/// A half of a month of a given year: the finest period an invoice covers.
#[derive(Clone, Copy, Debug, PartialEq, Eq, Structural)]
pub struct YearMonthAndFortnight {
    pub year: Year,
    pub month: Month,
    pub half: MonthHalf,
}

/// The position of a half-month on a line that counts half-months from
/// the first half of January of year 0.
pub open spec fn fortnight_index(p: YearMonthAndFortnight) -> int {
    (p.year.0 * 12 + month_number(p.month) - 1) * 2 + match p.half {
        MonthHalf::First => 0int,
        MonthHalf::Second => 1int,
    }
}

/// The half-month just before `p` (for any `p` after the first half of
/// January of year 0).
pub open spec fn half_before(p: YearMonthAndFortnight) -> YearMonthAndFortnight {
    match p.half {
        MonthHalf::Second => YearMonthAndFortnight { year: p.year, month: p.month, half: MonthHalf::First },
        MonthHalf::First => if p.month == Month::January {
            YearMonthAndFortnight {
                year: Year((p.year.0 - 1) as u16),
                month: Month::December,
                half: MonthHalf::Second,
            }
        } else {
            YearMonthAndFortnight {
                year: p.year,
                month: previous_month(p.month),
                half: MonthHalf::Second,
            }
        },
    }
}

/// The month before `m`; December for January.
pub open spec fn previous_month(m: Month) -> Month {
    match m {
        Month::January => Month::December,
        Month::February => Month::January,
        Month::March => Month::February,
        Month::April => Month::March,
        Month::May => Month::April,
        Month::June => Month::May,
        Month::July => Month::June,
        Month::August => Month::July,
        Month::September => Month::August,
        Month::October => Month::September,
        Month::November => Month::October,
        Month::December => Month::November,
    }
}

/// The half-month before `p` lies one step before it.
pub proof fn lemma_half_before_index(p: YearMonthAndFortnight)
    requires
        fortnight_index(p) > 0,
    ensures
        fortnight_index(half_before(p)) == fortnight_index(p) - 1,
{
}

impl YearMonthAndFortnight {
    /// The given half of the given month of the given year.
    pub fn new(year: Year, month: Month, half: MonthHalf) -> (p: YearMonthAndFortnight)
        ensures
            p.year == year,
            p.month == month,
            p.half == half,
    {
        YearMonthAndFortnight { year, month, half }
    }

    /// The given half of a month of a year.
    pub fn year_and_month_with_half(year_and_month: YearAndMonth, half: MonthHalf) -> (p:
        YearMonthAndFortnight)
        ensures
            p.year == year_and_month.year,
            p.month == year_and_month.month,
            p.half == half,
    {
        YearMonthAndFortnight { year: year_and_month.year, month: year_and_month.month, half }
    }

    /// The year.
    pub fn year(&self) -> (y: &Year)
        ensures
            *y == self.year,
    {
        &self.year
    }

    /// The month.
    pub fn month(&self) -> (m: &Month)
        ensures
            *m == self.month,
    {
        &self.month
    }

    /// The half of the month.
    pub fn half(&self) -> (h: &MonthHalf)
        ensures
            *h == self.half,
    {
        &self.half
    }

    /// The half-month just before this one: the first half of the same
    /// month before a second half, and the second half of the previous
    /// month (of the previous year, for January) before a first half.
    /// Nothing lies before the first half of January of year 0.
    pub fn one_half_earlier(&self) -> (p: YearMonthAndFortnight)
        requires
            fortnight_index(*self) > 0,
        ensures
            p == half_before(*self),
            fortnight_index(p) == fortnight_index(*self) - 1,
            self.half == MonthHalf::Second ==> p.year == self.year && p.month == self.month
                && p.half == MonthHalf::First,
            self.half == MonthHalf::First ==> p.half == MonthHalf::Second,
            self.half == MonthHalf::First && self.month != Month::January ==> p.year == self.year
                && month_number(p.month) == month_number(self.month) - 1,
            self.half == MonthHalf::First && self.month == Month::January ==> p.year.0
                == self.year.0 - 1 && p.month == Month::December,
    {
        match self.half {
            MonthHalf::Second => YearMonthAndFortnight {
                year: self.year,
                month: self.month,
                half: MonthHalf::First,
            },
            MonthHalf::First => {
                if self.month.number() == 1 {
                    YearMonthAndFortnight {
                        year: Year(self.year.0 - 1),
                        month: Month::December,
                        half: MonthHalf::Second,
                    }
                } else {
                    YearMonthAndFortnight {
                        year: self.year,
                        month: self.month.previous(),
                        half: MonthHalf::Second,
                    }
                }
            },
        }
    }
}


/// Whether a year of the Gregorian calendar has 366 days.
pub open spec fn is_leap_year(y: int) -> bool {
    y % 4 == 0 && (y % 100 != 0 || y % 400 == 0)
}

/// The number of days of a year.
pub open spec fn days_in_year(y: int) -> int {
    if is_leap_year(y) {
        366
    } else {
        365
    }
}

/// The number of days of month `m` (1 to 12) of year `y`.
pub open spec fn days_in_month(y: int, m: int) -> int {
    if m == 2 {
        if is_leap_year(y) {
            29
        } else {
            28
        }
    } else if m == 4 || m == 6 || m == 9 || m == 11 {
        30
    } else {
        31
    }
}

/// The number of days from 1 January 1970 to 1 January of year `y`.
pub open spec fn days_before_year(y: int) -> int
    decreases y - 1970,
{
    if y <= 1970 {
        0
    } else {
        days_before_year(y - 1) + days_in_year(y - 1)
    }
}

/// The number of days from 1 January of year `y` to the first day of month `m`.
pub open spec fn days_before_month(y: int, m: int) -> int
    decreases m,
{
    if m <= 1 {
        0
    } else {
        days_before_month(y, m - 1) + days_in_month(y, m - 1)
    }
}

/// The number of days from 1 January 1970 to the given day.
pub open spec fn days_since_epoch(y: int, m: int, d: int) -> int {
    days_before_year(y) + days_before_month(y, m) + d - 1
}

/// The first day that a year of this calendar (a `u16`) cannot hold.
pub open spec fn days_until_year_limit() -> int {
    days_before_year(65536)
}

proof fn lemma_days_before_year_monotone(a: int, b: int)
    requires
        1970 <= a <= b,
    ensures
        days_before_year(a) <= days_before_year(b),
    decreases b - a,
{
    if a < b {
        lemma_days_before_year_monotone(a, b - 1);
    }
}

proof fn lemma_days_before_year_lower_bound(y: int)
    requires
        y >= 1970,
    ensures
        days_before_year(y) >= 365 * (y - 1970),
    decreases y - 1970,
{
    if y > 1970 {
        lemma_days_before_year_lower_bound(y - 1);
    }
}

/// Every day count below 23 201 590 (some 63 500 years) lies within the
/// years that a `u16` holds.
pub proof fn lemma_year_limit_bound()
    ensures
        days_until_year_limit() >= 23_201_590,
{
    lemma_days_before_year_lower_bound(65536);
}

proof fn lemma_months_fill_year(y: int)
    ensures
        days_before_month(y, 13) == days_in_year(y),
        forall|m: int| 1 <= m <= 12 ==> days_before_month(y, m) + days_in_month(y, m)
            == #[trigger] days_before_month(y, m + 1),
{
    reveal_with_fuel(days_before_month, 13);
}

/// The months of the Gregorian calendar: April, June, September and
/// November have 30 days; February has 29 days in a leap year and 28
/// otherwise; every other month has 31 days. A leap year is one divisible
/// by 4, except the centuries not divisible by 400; it has 366 days, any
/// other year 365.
pub proof fn lemma_gregorian_month_lengths(y: int)
    ensures
        is_leap_year(y) <==> (y % 4 == 0 && (y % 100 != 0 || y % 400 == 0)),
        days_in_month(y, 1) == 31,
        days_in_month(y, 2) == (if y % 4 == 0 && (y % 100 != 0 || y % 400 == 0) {
            29int
        } else {
            28int
        }),
        days_in_month(y, 3) == 31,
        days_in_month(y, 4) == 30,
        days_in_month(y, 5) == 31,
        days_in_month(y, 6) == 30,
        days_in_month(y, 7) == 31,
        days_in_month(y, 8) == 31,
        days_in_month(y, 9) == 30,
        days_in_month(y, 10) == 31,
        days_in_month(y, 11) == 30,
        days_in_month(y, 12) == 31,
        days_in_year(y) == (if y % 4 == 0 && (y % 100 != 0 || y % 400 == 0) {
            366int
        } else {
            365int
        }),
{
}

/// Where each month starts, in days after 1 January: February on day 31,
/// March on day 59 (60 in a leap year), and so on up to December on day
/// 334 (335), the year ending after 365 (366) days.
pub proof fn lemma_month_starts(y: int)
    ensures
        days_before_month(y, 1) == 0,
        days_before_month(y, 2) == 31,
        !is_leap_year(y) ==> days_before_month(y, 3) == 59 && days_before_month(y, 4) == 90
            && days_before_month(y, 5) == 120 && days_before_month(y, 6) == 151
            && days_before_month(y, 7) == 181 && days_before_month(y, 8) == 212
            && days_before_month(y, 9) == 243 && days_before_month(y, 10) == 273
            && days_before_month(y, 11) == 304 && days_before_month(y, 12) == 334
            && days_before_month(y, 13) == 365,
        is_leap_year(y) ==> days_before_month(y, 3) == 60 && days_before_month(y, 4) == 91
            && days_before_month(y, 5) == 121 && days_before_month(y, 6) == 152
            && days_before_month(y, 7) == 182 && days_before_month(y, 8) == 213
            && days_before_month(y, 9) == 244 && days_before_month(y, 10) == 274
            && days_before_month(y, 11) == 305 && days_before_month(y, 12) == 335
            && days_before_month(y, 13) == 366,
{
    reveal_with_fuel(days_before_month, 13);
}

/// The days before 1 January of a year, counted from 1 January 1970: 365
/// for each year since 1970, and one more for each leap year among them
/// (the multiples of 4 less the centuries that are not multiples of 400).
pub proof fn lemma_days_before_year_closed_form(y: int)
    requires
        y >= 1970,
    ensures
        days_before_year(y) == 365 * (y - 1970) + ((y - 1) / 4 - (y - 1) / 100 + (y - 1) / 400)
            - 477,
    decreases y - 1970,
{
    if y > 1970 {
        lemma_days_before_year_closed_form(y - 1);
        let x = y - 1;
        assert(x / 4 - (x - 1) / 4 == (if x % 4 == 0 { 1int } else { 0int }));
        assert(x / 100 - (x - 1) / 100 == (if x % 100 == 0 { 1int } else { 0int }));
        assert(x / 400 - (x - 1) / 400 == (if x % 400 == 0 { 1int } else { 0int }));
        assert(x % 400 == 0 ==> x % 100 == 0);
        assert(x % 100 == 0 ==> x % 4 == 0);
    }
}

/// The calendar repeats every four centuries: 400 consecutive years hold
/// 146 097 days, 97 of them being leap years.
pub proof fn lemma_four_century_cycle(y: int)
    requires
        y >= 1970,
    ensures
        days_before_year(y + 400) == days_before_year(y) + 146_097,
{
    lemma_days_before_year_closed_form(y);
    lemma_days_before_year_closed_form(y + 400);
    let x = y - 1;
    assert((x + 400) / 4 == x / 4 + 100);
    assert((x + 400) / 100 == x / 100 + 4);
    assert((x + 400) / 400 == x / 400 + 1);
}

/// Days counted from 1 January 1970: 1 January 2000 is day 10 957 and
/// 1 January 2025 is day 20 089.
pub proof fn lemma_year_starts()
    ensures
        days_before_year(1970) == 0,
        days_before_year(2000) == 10_957,
        days_before_year(2025) == 20_089,
{
    lemma_days_before_year_closed_form(2000);
    lemma_days_before_year_closed_form(2025);
}

fn year_length(y: u16) -> (n: u64)
    ensures
        n == days_in_year(y as int),
{
    if y % 4 == 0 && (y % 100 != 0 || y % 400 == 0) {
        366
    } else {
        365
    }
}

fn month_length(y: u16, m: u8) -> (n: u64)
    ensures
        n == days_in_month(y as int, m as int),
{
    if m == 2 {
        if y % 4 == 0 && (y % 100 != 0 || y % 400 == 0) {
            29
        } else {
            28
        }
    } else if m == 4 || m == 6 || m == 9 || m == 11 {
        30
    } else {
        31
    }
}

/// The calendar day that lies `days` days after 1 January 1970, as year,
/// month and day of the month. A day past the last one that a `u16` year
/// can hold gives that last day, 31 December 65535.
pub fn civil_from_days(days: u64) -> (date: (u16, Month, u8))
    ensures
        days < days_until_year_limit() ==> {
            &&& 1970 <= date.0
            &&& 1 <= date.2 <= days_in_month(date.0 as int, month_number(date.1))
            &&& days_since_epoch(date.0 as int, month_number(date.1), date.2 as int) == days
        },
        days >= days_until_year_limit() ==> date == (65535u16, Month::December, 31u8),
{
    let mut y: u16 = 1970;
    let mut rem: u64 = days;
    while y < 65535 && rem >= year_length(y)
        invariant
            1970 <= y <= 65535,
            rem + days_before_year(y as int) == days,
        decreases 65535 - y,
    {
        rem = rem - year_length(y);
        y = y + 1;
    }
    if rem >= year_length(y) {
        proof {
            assert(days_before_year(65536) == days_before_year(65535) + days_in_year(65535));
        }
        return (65535u16, Month::December, 31u8);
    }
    proof {
        lemma_days_before_year_monotone(y as int + 1, 65536);
        lemma_months_fill_year(y as int);
    }
    let ghost rem0 = rem;
    let mut m: u8 = 1;
    while m < 12 && rem >= month_length(y, m)
        invariant
            1 <= m <= 12,
            rem + days_before_month(y as int, m as int) == rem0,
            rem0 < days_in_year(y as int),
            days_before_month(y as int, 13) == days_in_year(y as int),
            forall|k: int| 1 <= k <= 12 ==> days_before_month(y as int, k) + days_in_month(y as int, k)
                == #[trigger] days_before_month(y as int, k + 1),
        decreases 12 - m,
    {
        rem = rem - month_length(y, m);
        m = m + 1;
    }
    let month = match Month::from_number(m as u32) {
        Some(month) => month,
        None => Month::December,
    };
    (y, month, (rem + 1) as u8)
}

/// Whether `p` is the half-month that holds the day lying `days` days
/// after 1 January 1970, days 1 to 15 of a month forming its first half.
/// Day counts past the last day of year 65535 are held by the last half of
/// that year.
pub open spec fn holds_day(p: YearMonthAndFortnight, days: int) -> bool {
    if days < days_until_year_limit() {
        p.year.0 >= 1970 && exists|d: int|
            1 <= d <= days_in_month(p.year.0 as int, month_number(p.month))
                && #[trigger] days_since_epoch(p.year.0 as int, month_number(p.month), d) == days
                && (p.half == MonthHalf::First <==> d <= 15)
    } else {
        p == YearMonthAndFortnight { year: Year(65535), month: Month::December, half: MonthHalf::Second }
    }
}

proof fn lemma_days_before_month_monotone(y: int, a: int, b: int)
    requires
        1 <= a <= b <= 13,
    ensures
        0 <= days_before_month(y, a) <= days_before_month(y, b),
    decreases b - a,
{
    if a < b {
        lemma_days_before_month_monotone(y, a, b - 1);
        assert(days_before_month(y, b) == days_before_month(y, b - 1) + days_in_month(y, b - 1));
    } else {
        lemma_days_before_month_nonnegative(y, a);
    }
}

proof fn lemma_days_before_month_nonnegative(y: int, m: int)
    ensures
        days_before_month(y, m) >= 0,
    decreases m,
{
    if m > 1 {
        lemma_days_before_month_nonnegative(y, m - 1);
    }
}

/// A day of a month lies within its year: its count from the start of the
/// year is below the year's length.
proof fn lemma_day_within_year(y: int, m: int, d: int)
    requires
        1 <= m <= 12,
        1 <= d <= days_in_month(y, m),
    ensures
        0 <= days_before_month(y, m) + d - 1 < days_in_year(y),
{
    lemma_months_fill_year(y);
    assert(days_before_month(y, m) + days_in_month(y, m) == days_before_month(y, m + 1));
    lemma_days_before_month_monotone(y, m + 1, 13);
    lemma_days_before_month_nonnegative(y, m);
}

proof fn lemma_month_number_injective(a: Month, b: Month)
    ensures
        month_number(a) == month_number(b) ==> a == b,
        1 <= month_number(a) <= 12,
{
}

/// A day count names one calendar date only: two dates (from 1970 on) with
/// the same count of days since 1 January 1970 are the same date.
pub proof fn lemma_date_unique(y1: int, m1: int, d1: int, y2: int, m2: int, d2: int)
    requires
        1970 <= y1,
        1970 <= y2,
        1 <= m1 <= 12,
        1 <= m2 <= 12,
        1 <= d1 <= days_in_month(y1, m1),
        1 <= d2 <= days_in_month(y2, m2),
        days_since_epoch(y1, m1, d1) == days_since_epoch(y2, m2, d2),
    ensures
        y1 == y2,
        m1 == m2,
        d1 == d2,
{
    lemma_day_within_year(y1, m1, d1);
    lemma_day_within_year(y2, m2, d2);
    if y1 < y2 {
        lemma_days_before_year_monotone(y1 + 1, y2);
        assert(days_before_year(y1 + 1) == days_before_year(y1) + days_in_year(y1));
        assert(false);
    }
    if y2 < y1 {
        lemma_days_before_year_monotone(y2 + 1, y1);
        assert(days_before_year(y2 + 1) == days_before_year(y2) + days_in_year(y2));
        assert(false);
    }
    lemma_months_fill_year(y1);
    if m1 < m2 {
        assert(days_before_month(y1, m1) + days_in_month(y1, m1) == days_before_month(y1, m1 + 1));
        lemma_days_before_month_monotone(y1, m1 + 1, m2);
        assert(false);
    }
    if m2 < m1 {
        assert(days_before_month(y1, m2) + days_in_month(y1, m2) == days_before_month(y1, m2 + 1));
        lemma_days_before_month_monotone(y1, m2 + 1, m1);
        assert(false);
    }
}

/// A day is held by one half-month only.
pub proof fn lemma_holds_day_unique(p: YearMonthAndFortnight, q: YearMonthAndFortnight, days: int)
    requires
        holds_day(p, days),
        holds_day(q, days),
    ensures
        p == q,
{
    if days < days_until_year_limit() {
        let yp = p.year.0 as int;
        let yq = q.year.0 as int;
        let mp = month_number(p.month);
        let mq = month_number(q.month);
        lemma_month_number_injective(p.month, q.month);
        lemma_month_number_injective(q.month, p.month);
        let dp = choose|d: int|
            1 <= d <= days_in_month(yp, mp) && #[trigger] days_since_epoch(yp, mp, d) == days && (
            p.half == MonthHalf::First <==> d <= 15);
        let dq = choose|d: int|
            1 <= d <= days_in_month(yq, mq) && #[trigger] days_since_epoch(yq, mq, d) == days && (
            q.half == MonthHalf::First <==> d <= 15);
        lemma_date_unique(yp, mp, dp, yq, mq, dq);
        assert(p.year == q.year);
    }
}

/// The half-month that holds a calendar day (of a year a `u16` holds) is
/// a half of that day's month of that day's year: its first half for days
/// 1 to 15, its second half from day 16 on.
pub proof fn lemma_half_of_day(p: YearMonthAndFortnight, y: int, m: Month, d: int)
    requires
        1970 <= y <= 65535,
        1 <= d <= days_in_month(y, month_number(m)),
        holds_day(p, days_since_epoch(y, month_number(m), d)),
    ensures
        p.year.0 == y,
        p.month == m,
        p.half == MonthHalf::First <==> d <= 15,
{
    let days = days_since_epoch(y, month_number(m), d);
    let q = YearMonthAndFortnight {
        year: Year(y as u16),
        month: m,
        half: if d <= 15 {
            MonthHalf::First
        } else {
            MonthHalf::Second
        },
    };
    lemma_month_number_injective(m, m);
    lemma_day_within_year(y, month_number(m), d);
    lemma_days_before_year_monotone(y + 1, 65536);
    assert(days_before_year(y + 1) == days_before_year(y) + days_in_year(y));
    assert(days < days_until_year_limit());
    assert(days_since_epoch(q.year.0 as int, month_number(q.month), d) == days);
    assert(holds_day(q, days));
    lemma_holds_day_unique(p, q, days);
}

/// The seconds elapsed since 1970-01-01 00:00:00 UTC by the system clock,
/// or `None` when the clock is set before 1970. Calls
/// `std::time::SystemTime::elapsed` on `UNIX_EPOCH` and reads the whole
/// seconds of the elapsed time. Nothing is stated of the value: it is
/// whatever the clock shows.
#[verifier::external_body]
fn seconds_since_unix_epoch() -> Option<u64> {
    match std::time::UNIX_EPOCH.elapsed() {
        Ok(elapsed) => Some(elapsed.as_secs()),
        Err(_) => None,
    }
}

/// The number of seconds in a day.
pub const SECONDS_PER_DAY: u64 = 86400;

impl YearMonthAndFortnight {
    /// The half-month that holds the day lying `days` days after
    /// 1 January 1970: the first half for days 1 to 15 of a month, the
    /// second half from day 16.
    pub fn from_days_since_epoch(days: u64) -> (p: YearMonthAndFortnight)
        ensures
            holds_day(p, days as int),
            p.year.0 >= 1970,
    {
        let (y, m, d) = civil_from_days(days);
        let half = if d <= 15 {
            MonthHalf::First
        } else {
            MonthHalf::Second
        };
        let p = YearMonthAndFortnight { year: Year(y), month: m, half };
        proof {
            if days < days_until_year_limit() {
                assert(days_since_epoch(p.year.0 as int, month_number(p.month), d as int) == days);
            }
        }
        p
    }

    /// The half-month that holds the moment lying `secs` seconds after
    /// 1970-01-01 00:00:00 UTC: the half-month of its day, counted in whole
    /// days of 86 400 seconds.
    pub fn from_seconds_since_epoch(secs: u64) -> (p: YearMonthAndFortnight)
        ensures
            holds_day(p, secs as int / SECONDS_PER_DAY as int),
            p.year.0 >= 1970,
    {
        Self::from_days_since_epoch(secs / SECONDS_PER_DAY)
    }

    /// The half-month of today's date, by the system clock in UTC. A clock
    /// set before 1970 counts as the start of 1970.
    pub fn current() -> (p: YearMonthAndFortnight)
        ensures
            p.year.0 >= 1970,
            exists|secs: u64| #[trigger] holds_day(p, secs as int / SECONDS_PER_DAY as int),
    {
        let secs = match seconds_since_unix_epoch() {
            Some(secs) => secs,
            None => 0,
        };
        let p = Self::from_seconds_since_epoch(secs);
        assert(holds_day(p, secs as int / SECONDS_PER_DAY as int));
        p
    }
}

} // verus!
