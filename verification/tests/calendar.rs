use waveshare_watch::calendar::days_to_date;

#[test]
fn epoch_is_first_of_january_1970() {
    assert_eq!(days_to_date(0), (1970, 1, 1));
}

#[test]
fn month_and_year_ends() {
    assert_eq!(days_to_date(30), (1970, 1, 31));
    assert_eq!(days_to_date(31), (1970, 2, 1));
    assert_eq!(days_to_date(58), (1970, 2, 28));
    assert_eq!(days_to_date(59), (1970, 3, 1));
    assert_eq!(days_to_date(364), (1970, 12, 31));
    assert_eq!(days_to_date(365), (1971, 1, 1));
}

#[test]
fn leap_days() {
    assert_eq!(days_to_date(789), (1972, 2, 29));
    assert_eq!(days_to_date(790), (1972, 3, 1));
    assert_eq!(days_to_date(11016), (2000, 2, 29));
    assert_eq!(days_to_date(11017), (2000, 3, 1));
    // 2100 is no leap year.
    assert_eq!(days_to_date(47540), (2100, 2, 28));
    assert_eq!(days_to_date(47541), (2100, 3, 1));
}

#[test]
fn a_recent_day() {
    assert_eq!(days_to_date(20549), (2026, 4, 6));
}

#[test]
fn the_largest_day_number() {
    assert_eq!(days_to_date(i32::MAX), (5881580, 7, 11));
}

#[test]
fn days_before_the_epoch_count_in_the_day_alone() {
    assert_eq!(days_to_date(-1), (1970, 1, 0));
    assert_eq!(days_to_date(-2), (1970, 1, u32::MAX));
    assert_eq!(days_to_date(i32::MIN), (1970, 1, 2_147_483_649));
}

#[test]
fn dates_increase_with_the_day_number() {
    let mut previous = days_to_date(0);
    for day in 1..60_000 {
        let date = days_to_date(day);
        assert!(date > previous);
        previous = date;
    }
}
