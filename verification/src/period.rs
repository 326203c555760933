//! A period written by hand: a month, or a half of a month, of a year.
//!
//! Text form: `YEAR-MONTH`, `YEAR-MONTH-first-half` or
//! `YEAR-MONTH-second-half`, where YEAR and MONTH are runs of ASCII digits
//! (leading zeros allowed), YEAR at most 65535 and MONTH from 1 to 12.
use vstd::prelude::*;
use vstd::string::StringExecFns;

use crate::calendar::{month_number, Month, MonthHalf, Year, YearAndMonth, YearMonthAndFortnight};
use crate::error::Error;
use crate::text::{
    chars_of, dash_fields, dash_free, decimal_text, is_numeral, lemma_dash_fields_join,
    lemma_dash_free_single_field, lemma_decimal_text, lemma_two_digit_text, numeral_value,
    numeral_value_capped, push_decimal, push_two_digits, spells, split_dash_fields,
    string_from_chars, two_digit_text,
};

verus! {

/// A period named explicitly: a whole month, or one half of a month.
#[derive(Clone, Copy, Debug, PartialEq, Eq, Structural)]
pub enum PeriodAnno {
    YearAndMonth(YearAndMonth),
    YearMonthAndFortnight(YearMonthAndFortnight),
}

/// The word that names a month half in text.
pub open spec fn half_word(h: MonthHalf) -> Seq<char> {
    match h {
        MonthHalf::First => seq!['f', 'i', 'r', 's', 't'],
        MonthHalf::Second => seq!['s', 'e', 'c', 'o', 'n', 'd'],
    }
}

/// The word that closes the text of a month half.
pub open spec fn half_suffix() -> Seq<char> {
    seq!['h', 'a', 'l', 'f']
}

/// The month half that two trailing fields name, if any.
pub open spec fn half_of_words(word: Seq<char>, suffix: Seq<char>) -> Option<MonthHalf> {
    if suffix != half_suffix() {
        None
    } else if word == half_word(MonthHalf::First) {
        Some(MonthHalf::First)
    } else if word == half_word(MonthHalf::Second) {
        Some(MonthHalf::Second)
    } else {
        None
    }
}

/// The shape of a period text: `Some(None)` for `YEAR-MONTH`,
/// `Some(Some(h))` for a month half, `None` for anything else.
pub open spec fn period_shape(s: Seq<char>) -> Option<Option<MonthHalf>> {
    let f = dash_fields(s);
    if f.len() == 2 {
        Some(None)
    } else if f.len() == 4 && half_of_words(f[2], f[3]) is Some {
        Some(half_of_words(f[2], f[3]))
    } else {
        None
    }
}

/// Whether a field names a year.
pub open spec fn valid_year_text(t: Seq<char>) -> bool {
    is_numeral(t) && numeral_value(t) <= 65535
}

/// Whether a field names a month.
pub open spec fn valid_month_text(t: Seq<char>) -> bool {
    is_numeral(t) && 1 <= numeral_value(t) <= 12
}

/// The month with number `n` (1 to 12).
pub open spec fn month_of_number(n: int) -> Month {
    if n == 1 {
        Month::January
    } else if n == 2 {
        Month::February
    } else if n == 3 {
        Month::March
    } else if n == 4 {
        Month::April
    } else if n == 5 {
        Month::May
    } else if n == 6 {
        Month::June
    } else if n == 7 {
        Month::July
    } else if n == 8 {
        Month::August
    } else if n == 9 {
        Month::September
    } else if n == 10 {
        Month::October
    } else if n == 11 {
        Month::November
    } else {
        Month::December
    }
}

/// The period that the text `s` names, if it names one.
pub open spec fn parsed_period(s: Seq<char>) -> Option<PeriodAnno> {
    let f = dash_fields(s);
    match period_shape(s) {
        None => None,
        Some(h) => if valid_year_text(f[0]) && valid_month_text(f[1]) {
            let year = Year(numeral_value(f[0]) as u16);
            let month = month_of_number(numeral_value(f[1]));
            Some(
                match h {
                    None => PeriodAnno::YearAndMonth(YearAndMonth { year, month }),
                    Some(half) => PeriodAnno::YearMonthAndFortnight(
                        YearMonthAndFortnight { year, month, half },
                    ),
                },
            )
        } else {
            None
        },
    }
}

/// The text of a year and month: the year in decimal, a dash, the month
/// number on two digits.
pub open spec fn year_and_month_text(year: Year, month: Month) -> Seq<char> {
    decimal_text(year.0 as nat) + seq!['-'] + two_digit_text(month_number(month) as nat)
}

/// The text of a period.
pub open spec fn period_text(p: PeriodAnno) -> Seq<char> {
    match p {
        PeriodAnno::YearAndMonth(ym) => year_and_month_text(ym.year, ym.month),
        PeriodAnno::YearMonthAndFortnight(ymf) => year_and_month_text(ymf.year, ymf.month) + seq![
            '-',
        ] + half_word(ymf.half) + seq!['-'] + half_suffix(),
    }
}

proof fn lemma_month_of_number(m: Month)
    ensures
        month_of_number(month_number(m)) == m,
{
}

proof fn lemma_half_word(h: MonthHalf)
    ensures
        dash_free(half_word(h)),
        half_of_words(half_word(h), half_suffix()) == Some(h),
{
}

/// Reading the text of any period gives back that period.
pub proof fn lemma_period_text_round_trip(p: PeriodAnno)
    ensures
        parsed_period(period_text(p)) == Some(p),
{
    let (year, month) = match p {
        PeriodAnno::YearAndMonth(ym) => (ym.year, ym.month),
        PeriodAnno::YearMonthAndFortnight(ymf) => (ymf.year, ymf.month),
    };
    let y = decimal_text(year.0 as nat);
    let m = two_digit_text(month_number(month) as nat);
    lemma_decimal_text(year.0 as nat);
    lemma_two_digit_text(month_number(month) as nat);
    lemma_dash_free_single_field(y);
    lemma_dash_free_single_field(m);
    lemma_dash_fields_join(y, m);
    lemma_month_of_number(month);
    let ym = y + seq!['-'] + m;
    assert(dash_fields(ym) =~= seq![y, m]);
    match p {
        PeriodAnno::YearAndMonth(_) => {
            assert(period_text(p) == ym);
        },
        PeriodAnno::YearMonthAndFortnight(ymf) => {
            let w = half_word(ymf.half);
            lemma_half_word(ymf.half);
            lemma_dash_free_single_field(w);
            assert(dash_free(half_suffix()));
            lemma_dash_free_single_field(half_suffix());
            lemma_dash_fields_join(ym, w);
            let ymw = ym + seq!['-'] + w;
            lemma_dash_fields_join(ymw, half_suffix());
            assert(period_text(p) == ymw + seq!['-'] + half_suffix());
            assert(dash_fields(period_text(p)) =~= seq![y, m, w, half_suffix()]);
        },
    }
}

/// How a named half-month is written: the text of its month followed by
/// `-first-half` for a first half and by `-second-half` for a second half.
pub proof fn lemma_half_month_text(ymf: YearMonthAndFortnight)
    ensures
        ymf.half == MonthHalf::First ==> period_text(PeriodAnno::YearMonthAndFortnight(ymf))
            == period_text(PeriodAnno::YearAndMonth(YearAndMonth { year: ymf.year, month: ymf.month }))
            + seq!['-', 'f', 'i', 'r', 's', 't', '-', 'h', 'a', 'l', 'f'],
        ymf.half == MonthHalf::Second ==> period_text(PeriodAnno::YearMonthAndFortnight(ymf))
            == period_text(PeriodAnno::YearAndMonth(YearAndMonth { year: ymf.year, month: ymf.month }))
            + seq!['-', 's', 'e', 'c', 'o', 'n', 'd', '-', 'h', 'a', 'l', 'f'],
{
    let m = period_text(PeriodAnno::YearAndMonth(YearAndMonth { year: ymf.year, month: ymf.month }));
    if ymf.half == MonthHalf::First {
        assert(period_text(PeriodAnno::YearMonthAndFortnight(ymf)) =~= m + seq![
            '-',
            'f',
            'i',
            'r',
            's',
            't',
            '-',
            'h',
            'a',
            'l',
            'f',
        ]);
    } else {
        assert(period_text(PeriodAnno::YearMonthAndFortnight(ymf)) =~= m + seq![
            '-',
            's',
            'e',
            'c',
            'o',
            'n',
            'd',
            '-',
            'h',
            'a',
            'l',
            'f',
        ]);
    }
}

/// Whether `e` is the error that reading the text `s` reports: the whole
/// text when it has neither shape, else the year field when that is not a
/// year, else the month field.
pub open spec fn reports_period_error(s: Seq<char>, e: Error) -> bool {
    let f = dash_fields(s);
    if period_shape(s) is None {
        e matches Error::InvalidPeriod { input } && input@ == s
    } else if !valid_year_text(f[0]) {
        e matches Error::InvalidYear { input } && input@ == f[0]
    } else {
        e matches Error::InvalidMonth { input } && input@ == f[1]
    }
}

impl PeriodAnno {
    /// Reads a period from its text form.
    ///
    /// Errors: `InvalidPeriod` (carrying the whole text) when the text has
    /// neither shape; else `InvalidYear` (carrying the year field) when
    /// the year field is not a year; else `InvalidMonth` (carrying the
    /// month field) when the month field is not a month.
    pub fn from_str(s: &str) -> (r: Result<PeriodAnno, Error>)
        ensures
            match r {
                Ok(p) => parsed_period(s@) == Some(p),
                Err(e) => parsed_period(s@) is None && reports_period_error(s@, e),
            },
    {
        let chars = chars_of(s);
        let fields = split_dash_fields(&chars);
        let ghost f = dash_fields(s@);
        proof {
            reveal_strlit("first");
            reveal_strlit("second");
            reveal_strlit("half");
            assert("first"@ =~= half_word(MonthHalf::First));
            assert("second"@ =~= half_word(MonthHalf::Second));
            assert("half"@ =~= half_suffix());
        }
        let half: Option<MonthHalf>;
        if fields.len() == 2 {
            half = None;
        } else if fields.len() == 4 && spells(&fields[3], "half") && spells(&fields[2], "first") {
            half = Some(MonthHalf::First);
        } else if fields.len() == 4 && spells(&fields[3], "half") && spells(&fields[2], "second") {
            half = Some(MonthHalf::Second);
        } else {
            return Err(Error::InvalidPeriod { input: String::from_str(s) });
        }
        assert(period_shape(s@) == Some(half));
        let year = match numeral_value_capped(&fields[0], 65536) {
            Some(v) => v,
            None => {
                return Err(Error::InvalidYear { input: string_from_chars(&fields[0]) });
            },
        };
        if year > 65535 {
            return Err(Error::InvalidYear { input: string_from_chars(&fields[0]) });
        }
        let month_number = match numeral_value_capped(&fields[1], 13) {
            Some(v) => v,
            None => {
                return Err(Error::InvalidMonth { input: string_from_chars(&fields[1]) });
            },
        };
        let month = match Month::from_number(month_number) {
            Some(m) => m,
            None => {
                return Err(Error::InvalidMonth { input: string_from_chars(&fields[1]) });
            },
        };
        let year = Year(year as u16);
        match half {
            None => Ok(PeriodAnno::YearAndMonth(YearAndMonth { year, month })),
            Some(half) => Ok(
                PeriodAnno::YearMonthAndFortnight(YearMonthAndFortnight { year, month, half }),
            ),
        }
    }

    /// The text form of the period, which `from_str` reads back.
    pub fn to_string(&self) -> (s: String)
        ensures
            s@ == period_text(*self),
    {
        let mut out = String::new();
        let (year, month) = match self {
            PeriodAnno::YearAndMonth(ym) => (ym.year, ym.month),
            PeriodAnno::YearMonthAndFortnight(ymf) => (ymf.year, ymf.month),
        };
        proof {
            reveal_strlit("-");
            reveal_strlit("-first-half");
            reveal_strlit("-second-half");
        }
        push_decimal(&mut out, year.0 as u32);
        out.append("-");
        push_two_digits(&mut out, month.number() as u32);
        match self {
            PeriodAnno::YearAndMonth(_) => {},
            PeriodAnno::YearMonthAndFortnight(ymf) => match ymf.half {
                MonthHalf::First => out.append("-first-half"),
                MonthHalf::Second => out.append("-second-half"),
            },
        }
        assert(out@ =~= period_text(*self));
        out
    }
}

impl std::str::FromStr for PeriodAnno {
    type Err = Error;

    fn from_str(s: &str) -> (r: Result<PeriodAnno, Error>)
        ensures
            match r {
                Ok(p) => parsed_period(s@) == Some(p),
                Err(e) => parsed_period(s@) is None && reports_period_error(s@, e),
            },
    {
        PeriodAnno::from_str(s)
    }
}

} // verus!
