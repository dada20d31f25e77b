use orivo::date::{format_date, format_utc_timestamp, CalDate, Stamp};
use orivo::kinds::repeat::Repeat;
use orivo::widgets::calendar_popup::{days_in_month, shift_month};

fn d(y: i32, m: u8, day: u8) -> CalDate {
    CalDate::new(y, m, day).unwrap()
}

fn ymd(x: CalDate) -> (i32, u8, u8) {
    (x.year(), x.month(), x.day())
}

#[test]
fn caldate_validation() {
    assert!(CalDate::new(2024, 2, 29).is_some());
    assert!(CalDate::new(2023, 2, 29).is_none());
    assert!(CalDate::new(2023, 13, 1).is_none());
    assert!(CalDate::new(2023, 4, 31).is_none());
    assert!(CalDate::new(2023, 4, 0).is_none());
    assert!(CalDate::new(10000, 1, 1).is_none());
    assert!(CalDate::new(-9999, 1, 1).is_some());
}

#[test]
fn next_date_daily_weekly() {
    assert_eq!(ymd(Repeat::Daily.next_date(d(2024, 2, 28))), (2024, 2, 29));
    assert_eq!(ymd(Repeat::Daily.next_date(d(2023, 12, 31))), (2024, 1, 1));
    assert_eq!(ymd(Repeat::Weekly.next_date(d(2024, 2, 26))), (2024, 3, 4));
}

#[test]
fn next_date_weekends_and_weekdays() {
    // 2024-05-01 is a Wednesday.
    assert_eq!(ymd(Repeat::Weekends.next_date(d(2024, 5, 1))), (2024, 5, 4));
    // From Saturday the next weekend day is Sunday.
    assert_eq!(ymd(Repeat::Weekends.next_date(d(2024, 5, 4))), (2024, 5, 5));
    // From Sunday it is the next Saturday.
    assert_eq!(ymd(Repeat::Weekends.next_date(d(2024, 5, 5))), (2024, 5, 11));
    // From Friday the next weekday is Monday.
    assert_eq!(ymd(Repeat::Weekdays.next_date(d(2024, 5, 3))), (2024, 5, 6));
    assert_eq!(ymd(Repeat::Weekdays.next_date(d(2024, 5, 4))), (2024, 5, 6));
    assert_eq!(ymd(Repeat::Weekdays.next_date(d(2024, 5, 1))), (2024, 5, 2));
    // Near the last supported date (9999-12-31 is a Friday).
    assert_eq!(ymd(Repeat::Weekdays.next_date(d(9999, 12, 30))), (9999, 12, 31));
    assert_eq!(ymd(Repeat::Weekends.next_date(d(9999, 12, 24))), (9999, 12, 25));
}

#[test]
fn next_date_monthly_yearly() {
    assert_eq!(ymd(Repeat::Monthly.next_date(d(2024, 1, 15))), (2024, 2, 15));
    assert_eq!(ymd(Repeat::Monthly.next_date(d(2024, 12, 15))), (2025, 1, 15));
    // A 31st skips the months without one.
    assert_eq!(ymd(Repeat::Monthly.next_date(d(2024, 1, 31))), (2024, 3, 31));
    assert_eq!(ymd(Repeat::Monthly.next_date(d(2024, 3, 31))), (2024, 5, 31));
    assert_eq!(ymd(Repeat::Monthly.next_date(d(2024, 7, 31))), (2024, 8, 31));
    assert_eq!(ymd(Repeat::Monthly.next_date(d(2024, 12, 31))), (2025, 1, 31));
    assert_eq!(ymd(Repeat::Monthly.next_date(d(2024, 1, 30))), (2024, 3, 30));
    assert_eq!(ymd(Repeat::Monthly.next_date(d(2024, 1, 29))), (2024, 2, 29));
    assert_eq!(ymd(Repeat::Monthly.next_date(d(2023, 1, 29))), (2023, 3, 29));
    assert_eq!(ymd(Repeat::Monthly.next_date(d(9999, 11, 30))), (9999, 12, 30));
    assert_eq!(ymd(Repeat::Yearly.next_date(d(2023, 6, 1))), (2024, 6, 1));
    // A 29 February moves to the next leap year.
    assert_eq!(ymd(Repeat::Yearly.next_date(d(2024, 2, 29))), (2028, 2, 29));
    assert_eq!(ymd(Repeat::Yearly.next_date(d(2096, 2, 29))), (2104, 2, 29));
    assert_eq!(ymd(Repeat::Yearly.next_date(d(9998, 3, 1))), (9999, 3, 1));
}

#[test]
fn month_lengths_and_shifts() {
    assert_eq!(days_in_month(2024, 2), 29);
    assert_eq!(days_in_month(2023, 2), 28);
    assert_eq!(days_in_month(2023, 12), 31);
    assert_eq!(days_in_month(1900, 2), 28);
    assert_eq!(days_in_month(2000, 2), 29);
    assert_eq!(days_in_month(9999, 12), 28);
    assert_eq!(ymd(shift_month(d(2024, 1, 31), 1)), (2024, 2, 29));
    assert_eq!(ymd(shift_month(d(2024, 1, 15), -1)), (2023, 12, 15));
    assert_eq!(ymd(shift_month(d(2024, 3, 31), -1)), (2024, 2, 29));
    assert_eq!(ymd(shift_month(d(2024, 5, 10), 24)), (2026, 5, 10));
    assert_eq!(ymd(shift_month(d(2024, 5, 10), -17)), (2022, 12, 10));
    assert_eq!(ymd(shift_month(d(9999, 12, 1), 1)), (9999, 12, 1));
}

#[test]
fn formatting_dates_and_stamps() {
    assert_eq!(format_date(&d(2024, 3, 5)), "2024-03-05");
    assert_eq!(format_date(&d(7, 11, 25)), "0007-11-25");
    assert_eq!(format_date(&d(-44, 3, 15)), "-0044-03-15");
    let s = Stamp::new(d(2024, 3, 5), 7, 4, 9, 0, 0).unwrap();
    assert_eq!(format_utc_timestamp(&s), "2024-03-05T07:04:09Z");
    assert!(Stamp::new(d(2024, 3, 5), 24, 0, 0, 0, 0).is_none());
    let t = s.replace_date(d(2025, 1, 1));
    assert_eq!(format_utc_timestamp(&t), "2025-01-01T07:04:09Z");
}

#[test]
fn clock_reads_something_plausible() {
    let now = orivo::date::now_utc_str();
    assert_eq!(now.len(), 20);
    assert!(now.ends_with('Z'));
    let today = orivo::date::today();
    assert!(today.year() >= 2000);
}
