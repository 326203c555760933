use klirr::{Error, Month, MonthHalf, PeriodAnno, Year, YearAndMonth, YearMonthAndFortnight};

#[test]
fn reads_year_and_month() {
    assert_eq!(
        PeriodAnno::from_str("2025-05"),
        Ok(PeriodAnno::YearAndMonth(YearAndMonth::new(Year(2025), Month::May)))
    );
    assert_eq!(
        PeriodAnno::from_str("02025-5"),
        Ok(PeriodAnno::YearAndMonth(YearAndMonth::new(Year(2025), Month::May)))
    );
}

#[test]
fn reads_month_halves() {
    assert_eq!(
        PeriodAnno::from_str("1999-12-second-half"),
        Ok(PeriodAnno::YearMonthAndFortnight(YearMonthAndFortnight::new(
            Year(1999),
            Month::December,
            MonthHalf::Second
        )))
    );
}

#[test]
fn writes_periods() {
    assert_eq!(
        PeriodAnno::YearAndMonth(YearAndMonth::new(Year(2025), Month::May)).to_string(),
        "2025-05"
    );
    assert_eq!(
        PeriodAnno::YearMonthAndFortnight(YearMonthAndFortnight::new(
            Year(2025),
            Month::November,
            MonthHalf::First
        ))
        .to_string(),
        "2025-11-first-half"
    );
    assert_eq!(
        PeriodAnno::YearAndMonth(YearAndMonth::new(Year(0), Month::January)).to_string(),
        "0-01"
    );
}

#[test]
fn invalid_period_shapes() {
    for text in ["", "2025", "2025-11-first", "2025-11-third-half", "2025-11-first-halves", "a-b-c"] {
        assert_eq!(
            PeriodAnno::from_str(text),
            Err(Error::InvalidPeriod { input: text.to_string() })
        );
    }
}

#[test]
fn invalid_years() {
    assert_eq!(
        PeriodAnno::from_str("65536-01"),
        Err(Error::InvalidYear { input: "65536".to_string() })
    );
    assert_eq!(
        PeriodAnno::from_str("-01"),
        Err(Error::InvalidYear { input: "".to_string() })
    );
    assert_eq!(
        PeriodAnno::from_str("+2025-01"),
        Err(Error::InvalidYear { input: "+2025".to_string() })
    );
    assert_eq!(
        PeriodAnno::from_str("65535-01"),
        Ok(PeriodAnno::YearAndMonth(YearAndMonth::new(Year(65535), Month::January)))
    );
}

#[test]
fn invalid_months() {
    assert_eq!(
        PeriodAnno::from_str("2025-0"),
        Err(Error::InvalidMonth { input: "0".to_string() })
    );
    assert_eq!(
        PeriodAnno::from_str("2025-99999999999-first-half"),
        Err(Error::InvalidMonth { input: "99999999999".to_string() })
    );
    assert_eq!(
        PeriodAnno::from_str("2025-ä"),
        Err(Error::InvalidMonth { input: "ä".to_string() })
    );
}

#[test]
fn from_str_trait_agrees() {
    let parsed: Result<PeriodAnno, Error> = "2025-11".parse();
    assert_eq!(parsed, PeriodAnno::from_str("2025-11"));
}
