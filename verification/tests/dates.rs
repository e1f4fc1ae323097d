use xirr_core::Date;

#[test]
fn valid_calendar_days_are_accepted() {
    assert!(Date::from_ymd(2015, 3, 14).is_some());
    assert!(Date::from_ymd(2020, 2, 29).is_some());
    assert!(Date::from_ymd(-4, 2, 29).is_some());
    assert!(Date::from_ymd(2000, 2, 29).is_some());
}

#[test]
fn invalid_calendar_days_are_rejected() {
    assert!(Date::from_ymd(2015, 0, 14).is_none());
    assert!(Date::from_ymd(2015, 13, 1).is_none());
    assert!(Date::from_ymd(2015, 2, 29).is_none());
    assert!(Date::from_ymd(2023, 4, 31).is_none());
    assert!(Date::from_ymd(1900, 2, 29).is_none());
    assert!(Date::from_ymd(400000, 1, 1).is_none());
    assert!(Date::from_ymd(-400000, 1, 1).is_none());
}

#[test]
fn day_numbers_count_actual_days() {
    let epoch = Date::from_ymd(1970, 1, 1).unwrap();
    assert_eq!(epoch.day_number, 719_163);

    // The Common Era's first day is day 1, and the count is proleptic:
    // year 0 (1 BCE) is a leap year of 366 days.
    assert_eq!(Date::from_ymd(1, 1, 1).unwrap().day_number, 1);
    assert_eq!(Date::from_ymd(2, 1, 1).unwrap().day_number, 366);
    assert_eq!(Date::from_ymd(0, 1, 1).unwrap().day_number, -365);
    assert_eq!(Date::from_ymd(0, 12, 31).unwrap().day_number, 0);

    let before_leap = Date::from_ymd(2020, 2, 28).unwrap();
    let after_leap = Date::from_ymd(2020, 3, 1).unwrap();
    assert_eq!(after_leap.day_number - before_leap.day_number, 2);

    let a = Date::from_ymd(2020, 1, 1).unwrap();
    let b = Date::from_ymd(2020, 12, 31).unwrap();
    assert_eq!(b.days_since(&a), 365);
}

#[test]
fn day_numbers_may_be_given_directly() {
    let d = Date::from_day_number(365).unwrap();
    assert_eq!(d.day_number, 365);
    assert!(Date::from_day_number(96_000_000).is_none());
    assert!(Date::from_day_number(-96_000_000).is_none());
}
