use klirr::calendar::civil_from_days;
use klirr::{Month, MonthHalf, Year, YearMonthAndFortnight};

#[test]
fn civil_dates() {
    assert_eq!(civil_from_days(0), (1970, Month::January, 1));
    assert_eq!(civil_from_days(31), (1970, Month::February, 1));
    assert_eq!(civil_from_days(59), (1970, Month::March, 1));
    assert_eq!(civil_from_days(19723), (2024, Month::January, 1));
    assert_eq!(civil_from_days(19782), (2024, Month::February, 29));
    assert_eq!(civil_from_days(19783), (2024, Month::March, 1));
    assert_eq!(civil_from_days(11016), (2000, Month::February, 29));
    assert_eq!(civil_from_days(u64::MAX), (65535, Month::December, 31));
}

#[test]
fn halves_from_days() {
    // 2025-11-15 and 2025-11-16
    assert_eq!(
        YearMonthAndFortnight::from_days_since_epoch(20407),
        YearMonthAndFortnight::new(Year(2025), Month::November, MonthHalf::First)
    );
    assert_eq!(
        YearMonthAndFortnight::from_days_since_epoch(20408),
        YearMonthAndFortnight::new(Year(2025), Month::November, MonthHalf::Second)
    );
}

#[test]
fn one_half_earlier_steps_back() {
    let p = YearMonthAndFortnight::new(Year(2025), Month::March, MonthHalf::Second);
    assert_eq!(
        p.one_half_earlier(),
        YearMonthAndFortnight::new(Year(2025), Month::March, MonthHalf::First)
    );
    assert_eq!(
        p.one_half_earlier().one_half_earlier(),
        YearMonthAndFortnight::new(Year(2025), Month::February, MonthHalf::Second)
    );
    let jan = YearMonthAndFortnight::new(Year(2025), Month::January, MonthHalf::First);
    assert_eq!(
        jan.one_half_earlier(),
        YearMonthAndFortnight::new(Year(2024), Month::December, MonthHalf::Second)
    );
}

#[test]
fn current_is_after_1970() {
    let current = YearMonthAndFortnight::current();
    assert!(current.year().0 >= 2024);
}

#[test]
fn month_numbers() {
    assert_eq!(Month::from_number(1), Some(Month::January));
    assert_eq!(Month::from_number(12), Some(Month::December));
    assert_eq!(Month::from_number(0), None);
    assert_eq!(Month::from_number(13), None);
    assert_eq!(Month::November.number(), 11);
    assert_eq!(Month::January.previous(), Month::December);
    assert_eq!(Year::from(2025), Year(2025));
}
