//! Which period an invoice covers: the current one, the last one, or one
//! named explicitly.
use vstd::prelude::*;
use vstd::string::{StrSliceExecFns, StringExecFns};

use crate::calendar::{
    fortnight_index, half_before, holds_day, SECONDS_PER_DAY, lemma_half_before_index, MonthHalf,
    YearAndMonth, YearMonthAndFortnight,
};
use crate::error::Error;
use crate::period::{
    lemma_period_text_round_trip, parsed_period, period_text, reports_period_error, PeriodAnno,
};
use crate::text::{chars_of, decimal_text, is_digit, lemma_decimal_text};

verus! {

/// The period an invoice is made for.
#[derive(Clone, Copy, Debug, PartialEq, Eq, Structural)]
pub enum TargetPeriod {
    /// The period of today: the current month or half-month.
    Current,
    /// The period before today's: last month or last half-month.
    Last,
    /// A period named explicitly, such as `2025-11` or `2025-11-first-half`.
    Specific(PeriodAnno),
}

/// Values of a type for use in examples and tests.
pub trait HasSample: Sized {
    /// A sample value.
    fn sample() -> Self;

    /// Another sample value, different from `sample`.
    fn sample_other() -> Self;
}

/// `c` with an ASCII capital letter turned into its small letter.
pub open spec fn ascii_lower(c: char) -> char {
    if 'A' <= c <= 'Z' {
        ((c as int) + 32) as char
    } else {
        c
    }
}

/// Whether `s` spells the lower-case word `w` in any mix of capital and
/// small letters.
pub open spec fn spells_ignoring_case(s: Seq<char>, w: Seq<char>) -> bool {
    s.len() == w.len() && forall|i: int| 0 <= i < s.len() ==> ascii_lower(#[trigger] s[i]) == w[i]
}

/// The keyword of the current period.
pub open spec fn current_word() -> Seq<char> {
    seq!['c', 'u', 'r', 'r', 'e', 'n', 't']
}

/// The keyword of the last period.
pub open spec fn last_word() -> Seq<char> {
    seq!['l', 'a', 's', 't']
}

/// The target period that the text `s` names, if it names one.
pub open spec fn parsed_target(s: Seq<char>) -> Option<TargetPeriod> {
    if spells_ignoring_case(s, current_word()) {
        Some(TargetPeriod::Current)
    } else if spells_ignoring_case(s, last_word()) {
        Some(TargetPeriod::Last)
    } else {
        match parsed_period(s) {
            Some(p) => Some(TargetPeriod::Specific(p)),
            None => None,
        }
    }
}

/// The text of a target period.
pub open spec fn target_text(t: TargetPeriod) -> Seq<char> {
    match t {
        TargetPeriod::Current => current_word(),
        TargetPeriod::Last => last_word(),
        TargetPeriod::Specific(p) => period_text(p),
    }
}

/// The half-month an explicitly named period stands for: a whole month
/// stands for its second half, which closes the month.
pub open spec fn specific_period(p: PeriodAnno) -> YearMonthAndFortnight {
    match p {
        PeriodAnno::YearAndMonth(ym) => YearMonthAndFortnight {
            year: ym.year,
            month: ym.month,
            half: MonthHalf::Second,
        },
        PeriodAnno::YearMonthAndFortnight(ymf) => ymf,
    }
}

/// The half-month that `t` stands for when today lies in `current`.
pub open spec fn resolved_period(t: TargetPeriod, current: YearMonthAndFortnight) -> YearMonthAndFortnight {
    match t {
        TargetPeriod::Current => current,
        TargetPeriod::Last => half_before(current),
        TargetPeriod::Specific(p) => specific_period(p),
    }
}

/// Whether `s` spells the lower-case word `w` in any mix of capital and
/// small letters.
fn spells_word_ignoring_case(s: &Vec<char>, w: &str) -> (b: bool)
    ensures
        b == spells_ignoring_case(s@, w@),
{
    let n = w.unicode_len();
    if s.len() != n {
        return false;
    }
    let mut i: usize = 0;
    while i < n
        invariant
            n == w@.len(),
            n == s@.len(),
            i <= n,
            forall|k: int| 0 <= k < i ==> ascii_lower(#[trigger] s@[k]) == w@[k],
        decreases n - i,
    {
        let c = s[i];
        let lower = if 'A' <= c && c <= 'Z' {
            ((c as u32) + 32) as u8 as char
        } else {
            c
        };
        assert(lower == ascii_lower(c));
        if lower != w.get_char(i) {
            return false;
        }
        i = i + 1;
    }
    true
}

impl TargetPeriod {
    /// Reads a target period: `current` and `last` in any mix of capital
    /// and small letters, else a period in the form that
    /// `PeriodAnno::from_str` reads, whose error it reports.
    pub fn from_str(s: &str) -> (r: Result<TargetPeriod, Error>)
        ensures
            match r {
                Ok(t) => parsed_target(s@) == Some(t),
                Err(e) => parsed_target(s@) is None && reports_period_error(s@, e),
            },
    {
        let chars = chars_of(s);
        proof {
            reveal_strlit("current");
            reveal_strlit("last");
            assert("current"@ =~= current_word());
            assert("last"@ =~= last_word());
        }
        if spells_word_ignoring_case(&chars, "current") {
            Ok(TargetPeriod::Current)
        } else if spells_word_ignoring_case(&chars, "last") {
            Ok(TargetPeriod::Last)
        } else {
            match PeriodAnno::from_str(s) {
                Ok(p) => Ok(TargetPeriod::Specific(p)),
                Err(e) => Err(e),
            }
        }
    }

    /// The text form: `current`, `last`, or the text of the named period.
    pub fn to_string(&self) -> (s: String)
        ensures
            s@ == target_text(*self),
    {
        proof {
            reveal_strlit("current");
            reveal_strlit("last");
        }
        match self {
            TargetPeriod::Current => {
                let s = String::from_str("current");
                assert(s@ =~= current_word());
                s
            },
            TargetPeriod::Last => {
                let s = String::from_str("last");
                assert(s@ =~= last_word());
                s
            },
            TargetPeriod::Specific(p) => p.to_string(),
        }
    }

    /// The half-month this target stands for when today lies in `current`:
    /// `current` itself, the half-month before it, or the named period (a
    /// whole month standing for its second half, so that the invoice
    /// covers the full month).
    pub fn period_relative_to(&self, current: YearMonthAndFortnight) -> (p: YearMonthAndFortnight)
        requires
            *self == TargetPeriod::Last ==> fortnight_index(current) > 0,
        ensures
            p == resolved_period(*self, current),
            *self == TargetPeriod::Current ==> p == current,
            *self == TargetPeriod::Last ==> fortnight_index(p) == fortnight_index(current) - 1,
            *self matches TargetPeriod::Specific(PeriodAnno::YearMonthAndFortnight(named)) ==> p
                == named,
            *self matches TargetPeriod::Specific(PeriodAnno::YearAndMonth(named)) ==> p.year
                == named.year && p.month == named.month && p.half == MonthHalf::Second,
    {
        proof {
            if *self == TargetPeriod::Last {
                lemma_half_before_index(current);
            }
        }
        match self {
            TargetPeriod::Current => current,
            TargetPeriod::Last => current.one_half_earlier(),
            TargetPeriod::Specific(period_anno) => match period_anno {
                PeriodAnno::YearAndMonth(ym) => YearMonthAndFortnight::year_and_month_with_half(
                    *ym,
                    MonthHalf::Second,
                ),
                PeriodAnno::YearMonthAndFortnight(ymf) => *ymf,
            },
        }
    }

    /// The half-month this target stands for today, by the system clock
    /// (UTC). A whole month stands for its second half.
    pub fn period(&self) -> (p: YearMonthAndFortnight)
        ensures
            exists|c: YearMonthAndFortnight, secs: u64|
                #![trigger holds_day(c, secs as int / SECONDS_PER_DAY as int), resolved_period(*self, c)]
                c.year.0 >= 1970 && holds_day(c, secs as int / SECONDS_PER_DAY as int) && p == resolved_period(*self, c),
            *self matches TargetPeriod::Specific(anno) ==> p == specific_period(anno),
    {
        let current = YearMonthAndFortnight::current();
        let p = self.period_relative_to(current);
        let ghost secs = choose|secs: u64| #[trigger] holds_day(current, secs as int / SECONDS_PER_DAY as int);
        assert(holds_day(current, secs as int / SECONDS_PER_DAY as int) && p == resolved_period(*self, current));
        p
    }
}

/// With today in `current`: the current period is `current` itself, the
/// last period is the half-month just before it, and a named period does
/// not depend on today.
pub proof fn lemma_current_and_last(current: YearMonthAndFortnight, other: YearMonthAndFortnight, p: PeriodAnno)
    requires
        fortnight_index(current) > 0,
    ensures
        resolved_period(TargetPeriod::Current, current) == current,
        resolved_period(TargetPeriod::Last, current) == half_before(current),
        fortnight_index(resolved_period(TargetPeriod::Last, current)) == fortnight_index(current) - 1,
        resolved_period(TargetPeriod::Specific(p), current) == resolved_period(
            TargetPeriod::Specific(p),
            other,
        ),
{
    lemma_half_before_index(current);
}

/// A named period stands for itself whatever today is: a named half-month
/// is that very half-month, and a named month is the second half of that
/// same month of that same year.
pub proof fn lemma_named_period_resolves_to_itself(
    today: YearMonthAndFortnight,
    half_month: YearMonthAndFortnight,
    month: YearAndMonth,
)
    ensures
        resolved_period(
            TargetPeriod::Specific(PeriodAnno::YearMonthAndFortnight(half_month)),
            today,
        ) == half_month,
        resolved_period(TargetPeriod::Specific(PeriodAnno::YearAndMonth(month)), today).year
            == month.year,
        resolved_period(TargetPeriod::Specific(PeriodAnno::YearAndMonth(month)), today).month
            == month.month,
        resolved_period(TargetPeriod::Specific(PeriodAnno::YearAndMonth(month)), today).half
            == MonthHalf::Second,
{
}

/// Whether `c` is the small letter `small` or its capital.
pub open spec fn is_either_case_of(c: char, small: char) -> bool {
    c == small || c as int == small as int - 32
}

/// Lowering a character turns exactly the 26 capital letters into their
/// small letters and leaves every other character as it is.
pub proof fn lemma_ascii_lower_letters(c: char)
    ensures
        'A' <= c <= 'Z' ==> 'a' <= ascii_lower(c) <= 'z' && ascii_lower(c) as int == c as int
            + ('a' as int - 'A' as int),
        !('A' <= c <= 'Z') ==> ascii_lower(c) == c,
{
}

proof fn lemma_either_case_lowers(c: char, small: char)
    requires
        'a' <= small <= 'z',
        is_either_case_of(c, small),
    ensures
        ascii_lower(c) == small,
{
    if c != small {
        assert('A' <= c <= 'Z');
        assert(((c as int) + 32) as char == small);
    }
}

/// `current` and `last` are read in any mix of capital and small letters:
/// every text that spells one of them letter by letter, each letter small
/// or capital, reads as that target period.
pub proof fn lemma_keywords_in_any_case(s: Seq<char>)
    ensures
        s.len() == 4 && is_either_case_of(s[0], 'l') && is_either_case_of(s[1], 'a')
            && is_either_case_of(s[2], 's') && is_either_case_of(s[3], 't') ==> parsed_target(s)
            == Some(TargetPeriod::Last),
        s.len() == 7 && is_either_case_of(s[0], 'c') && is_either_case_of(s[1], 'u')
            && is_either_case_of(s[2], 'r') && is_either_case_of(s[3], 'r') && is_either_case_of(
            s[4],
            'e',
        ) && is_either_case_of(s[5], 'n') && is_either_case_of(s[6], 't') ==> parsed_target(s)
            == Some(TargetPeriod::Current),
{
    let l = last_word();
    let w = current_word();
    if s.len() == 4 && is_either_case_of(s[0], 'l') && is_either_case_of(s[1], 'a')
        && is_either_case_of(s[2], 's') && is_either_case_of(s[3], 't') {
        lemma_either_case_lowers(s[0], 'l');
        lemma_either_case_lowers(s[1], 'a');
        lemma_either_case_lowers(s[2], 's');
        lemma_either_case_lowers(s[3], 't');
        assert(spells_ignoring_case(s, l));
        assert(!spells_ignoring_case(s, w));
    }
    if s.len() == 7 && is_either_case_of(s[0], 'c') && is_either_case_of(s[1], 'u')
        && is_either_case_of(s[2], 'r') && is_either_case_of(s[3], 'r') && is_either_case_of(
        s[4],
        'e',
    ) && is_either_case_of(s[5], 'n') && is_either_case_of(s[6], 't') {
        lemma_either_case_lowers(s[0], 'c');
        lemma_either_case_lowers(s[1], 'u');
        lemma_either_case_lowers(s[2], 'r');
        lemma_either_case_lowers(s[3], 'r');
        lemma_either_case_lowers(s[4], 'e');
        lemma_either_case_lowers(s[5], 'n');
        lemma_either_case_lowers(s[6], 't');
        assert(spells_ignoring_case(s, w));
    }
}

/// Reading the text of any target period gives back that target period.
pub proof fn lemma_target_text_round_trip(t: TargetPeriod)
    ensures
        parsed_target(target_text(t)) == Some(t),
{
    match t {
        TargetPeriod::Current => {},
        TargetPeriod::Last => {
            assert(!spells_ignoring_case(current_word(), last_word()));
            assert(ascii_lower(last_word()[0]) == last_word()[0]);
        },
        TargetPeriod::Specific(p) => {
            lemma_period_text_round_trip(p);
            let y = match p {
                PeriodAnno::YearAndMonth(ym) => ym.year,
                PeriodAnno::YearMonthAndFortnight(ymf) => ymf.year,
            };
            lemma_decimal_text(y.0 as nat);
            let s = period_text(p);
            assert(s[0] == decimal_text(y.0 as nat)[0]);
            assert(is_digit(s[0]));
            assert(!spells_ignoring_case(s, current_word()) && !spells_ignoring_case(s, last_word()))
                by {
                if spells_ignoring_case(s, current_word()) {
                    assert(ascii_lower(s[0]) == current_word()[0]);
                }
                if spells_ignoring_case(s, last_word()) {
                    assert(ascii_lower(s[0]) == last_word()[0]);
                }
            }
        },
    }
}

impl Default for TargetPeriod {
    /// The last period: invoices are usually made once a period is over.
    fn default() -> (t: TargetPeriod)
        ensures
            t == TargetPeriod::Last,
    {
        TargetPeriod::Last
    }
}

impl HasSample for TargetPeriod {
    fn sample() -> (t: TargetPeriod)
        ensures
            t == TargetPeriod::Current,
    {
        TargetPeriod::Current
    }

    fn sample_other() -> (t: TargetPeriod)
        ensures
            t == TargetPeriod::Last,
    {
        TargetPeriod::Last
    }
}

impl std::str::FromStr for TargetPeriod {
    type Err = Error;

    fn from_str(s: &str) -> (r: Result<TargetPeriod, Error>)
        ensures
            match r {
                Ok(t) => parsed_target(s@) == Some(t),
                Err(e) => parsed_target(s@) is None && reports_period_error(s@, e),
            },
    {
        TargetPeriod::from_str(s)
    }
}

} // verus!
