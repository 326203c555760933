use klirr::{
    Error, HasSample, Month, MonthHalf, PeriodAnno, TargetPeriod, Year, YearAndMonth,
    YearMonthAndFortnight,
};

type Sut = TargetPeriod;

#[test]
fn equality() {
    assert_eq!(Sut::sample(), Sut::sample());
    assert_eq!(Sut::sample_other(), Sut::sample_other());
}

#[test]
fn inequality() {
    assert_ne!(Sut::sample(), Sut::sample_other());
}

#[test]
fn target_month_current() {
    let target = Sut::Current;
    let period = target.period();
    assert_eq!(period, YearMonthAndFortnight::current());
}

#[test]
fn target_month_last() {
    let target = Sut::Last;
    let period = target.period();
    assert_eq!(period, YearMonthAndFortnight::current().one_half_earlier());
}

#[test]
fn from_str_current() {
    let target: Sut = "current".parse().unwrap();
    assert_eq!(target, Sut::Current);
}

#[test]
fn from_str_last() {
    let target: Sut = "last".parse().unwrap();
    assert_eq!(target, Sut::Last);
}

#[test]
fn from_str_specific_year_and_month() {
    let target: Sut = "2025-11".parse().unwrap();
    match target {
        Sut::Specific(PeriodAnno::YearAndMonth(ym)) => {
            assert_eq!(ym, YearAndMonth::november(2025));
        }
        _ => panic!("Expected Specific(YearAndMonth)"),
    }
}

#[test]
fn from_str_specific_year_month_and_fortnight() {
    let target: Sut = "2025-11-first-half".parse().unwrap();
    match target {
        Sut::Specific(PeriodAnno::YearMonthAndFortnight(ymf)) => {
            assert_eq!(*ymf.year(), Year::from(2025));
            assert_eq!(*ymf.month(), Month::November);
            assert_eq!(*ymf.half(), MonthHalf::First);
        }
        _ => panic!("Expected Specific(YearMonthAndFortnight)"),
    }
}

#[test]
fn target_period_specific_converts_correctly() {
    let target = Sut::Specific(PeriodAnno::YearAndMonth(YearAndMonth::november(2025)));
    let period = target.period();
    assert_eq!(*period.year(), Year::from(2025));
    assert_eq!(*period.month(), Month::November);
    assert_eq!(*period.half(), MonthHalf::Second);
}

#[test]
fn display_current() {
    assert_eq!(Sut::Current.to_string(), "current");
}

#[test]
fn display_last() {
    assert_eq!(Sut::Last.to_string(), "last");
}

#[test]
fn display_specific() {
    let target = Sut::Specific(PeriodAnno::YearAndMonth(YearAndMonth::november(2025)));
    assert_eq!(target.to_string(), "2025-11");
}

#[test]
fn default_is_last() {
    assert_eq!(Sut::default(), Sut::Last);
}

#[test]
fn keywords_ignore_case() {
    assert_eq!(Sut::from_str("CURRENT"), Ok(Sut::Current));
    assert_eq!(Sut::from_str("cUrReNt"), Ok(Sut::Current));
    assert_eq!(Sut::from_str("Last"), Ok(Sut::Last));
    assert_eq!(
        Sut::from_str("lasts"),
        Err(Error::InvalidPeriod { input: "lasts".to_string() })
    );
    assert_eq!(
        Sut::from_str(" last"),
        Err(Error::InvalidPeriod { input: " last".to_string() })
    );
}

#[test]
fn specific_period_keeps_the_case_it_was_given() {
    assert_eq!(
        Sut::from_str("2025-11-First-half"),
        Err(Error::InvalidPeriod { input: "2025-11-First-half".to_string() })
    );
}

#[test]
fn from_str_reports_period_errors() {
    assert_eq!(
        Sut::from_str("2025-13"),
        Err(Error::InvalidMonth { input: "13".to_string() })
    );
    assert_eq!(
        Sut::from_str("20x5-11"),
        Err(Error::InvalidYear { input: "20x5".to_string() })
    );
}

#[test]
fn text_round_trip() {
    let targets = [
        Sut::Current,
        Sut::Last,
        Sut::Specific(PeriodAnno::YearAndMonth(YearAndMonth::new(Year(7), Month::March))),
        Sut::Specific(PeriodAnno::YearMonthAndFortnight(YearMonthAndFortnight::new(
            Year(65535),
            Month::December,
            MonthHalf::Second,
        ))),
    ];
    for t in targets {
        assert_eq!(Sut::from_str(&t.to_string()), Ok(t));
    }
}

#[test]
fn period_relative_to_a_given_today() {
    let today = YearMonthAndFortnight::new(Year(2025), Month::January, MonthHalf::First);
    assert_eq!(Sut::Current.period_relative_to(today), today);
    assert_eq!(
        Sut::Last.period_relative_to(today),
        YearMonthAndFortnight::new(Year(2024), Month::December, MonthHalf::Second)
    );
    let named = YearMonthAndFortnight::new(Year(2023), Month::May, MonthHalf::First);
    assert_eq!(
        Sut::Specific(PeriodAnno::YearMonthAndFortnight(named)).period_relative_to(today),
        named
    );
    assert_eq!(
        Sut::Specific(PeriodAnno::YearAndMonth(YearAndMonth::new(Year(2023), Month::May)))
            .period_relative_to(today),
        YearMonthAndFortnight::new(Year(2023), Month::May, MonthHalf::Second)
    );
}
