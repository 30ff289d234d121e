use chrono::{Datelike, NaiveDate, NaiveDateTime, Timelike, Weekday};
use ut1_timetable::clock::ClockReading;
use ut1_timetable::geometry::{decode, GridContainer, ANCHOR_LIMIT};
use ut1_timetable::week::RunContext;

fn moment(year: i32, month: u32, day: u32, hour: u32, minute: u32, second: u32) -> NaiveDateTime {
    NaiveDate::from_ymd_opt(year, month, day).unwrap().and_hms_opt(hour, minute, second).unwrap()
}

fn reading_at(at: NaiveDateTime) -> ClockReading {
    ClockReading {
        local_seconds: at.and_utc().timestamp(),
        iso_week: at.iso_week().week(),
    }
}

fn grid() -> GridContainer {
    GridContainer::new(700, 560, 7).unwrap()
}

#[test]
fn anchor_is_the_monday_of_the_week_at_seven() {
    let monday = moment(2024, 1, 1, 7, 0, 0).and_utc().timestamp();
    assert_eq!(monday, 1_704_092_400);
    for (day, hour, minute, second) in
        [(1, 0, 0, 0), (1, 7, 0, 0), (1, 6, 59, 59), (3, 10, 15, 42), (7, 23, 59, 59), (5, 12, 0, 0)]
    {
        let reading = reading_at(moment(2024, 1, day, hour, minute, second));
        assert_eq!(reading.anchor_monday_7am(), Some(monday), "day {}", day);
    }
    let next = reading_at(moment(2024, 1, 8, 0, 0, 0));
    assert_eq!(next.anchor_monday_7am(), Some(monday + 7 * 86_400));
}

#[test]
fn anchor_is_a_monday_before_1970_too() {
    let reading = reading_at(moment(1969, 12, 31, 23, 59, 59));
    let anchor = reading.anchor_monday_7am().unwrap();
    assert_eq!(anchor, moment(1969, 12, 29, 7, 0, 0).and_utc().timestamp());
    let at = chrono::DateTime::from_timestamp(anchor, 0).unwrap().naive_utc();
    assert_eq!(at.weekday(), Weekday::Mon);
    assert_eq!((at.hour(), at.minute()), (7, 0));
}

#[test]
fn weekday_is_counted_from_the_seconds_as_the_calendar_counts_it() {
    let mut at = moment(1969, 12, 20, 13, 30, 0);
    for _ in 0..40 {
        assert_eq!(reading_at(at).weekday(), at.weekday().num_days_from_monday(), "{}", at);
        at += chrono::Duration::hours(17);
    }
    for (year, month, day) in [(1, 1, 1), (1600, 2, 29), (1899, 12, 31), (2024, 2, 29), (9999, 12, 31)]
    {
        for (hour, minute, second) in [(0, 0, 0), (23, 59, 59)] {
            let at = moment(year, month, day, hour, minute, second);
            assert_eq!(reading_at(at).weekday(), at.weekday().num_days_from_monday(), "{}", at);
        }
    }
    assert_eq!(ClockReading { local_seconds: 0, iso_week: 1 }.weekday(), 3);
    assert_eq!(ClockReading { local_seconds: -1, iso_week: 1 }.weekday(), 2);
    assert_eq!(ClockReading { local_seconds: i64::MAX, iso_week: 1 }.weekday(), 6);
    assert_eq!(ClockReading { local_seconds: i64::MIN, iso_week: 1 }.weekday(), 6);
}

#[test]
fn anchor_wants_a_usable_reading() {
    let good = reading_at(moment(2024, 1, 3, 10, 0, 0));
    assert!(good.anchor_monday_7am().is_some());
    assert!(ClockReading { iso_week: 0, ..good }.anchor_monday_7am().is_none());
    assert!(ClockReading { iso_week: 54, ..good }.anchor_monday_7am().is_none());
    assert!(ClockReading { local_seconds: i64::MAX, ..good }.anchor_monday_7am().is_none());
    assert!(ClockReading { local_seconds: i64::MIN, ..good }.anchor_monday_7am().is_none());
    let limit = ANCHOR_LIMIT;
    assert_eq!((limit.div_euclid(86_400) + 3).rem_euclid(7), 6);
    let edge = ClockReading { local_seconds: limit, iso_week: 1 };
    assert_eq!(edge.anchor_monday_7am(), Some(limit - limit % 86_400 - 6 * 86_400 + 25_200));
    let over = ClockReading { local_seconds: limit + 86_400, iso_week: 1 };
    assert_eq!(over.anchor_monday_7am(), None);
    let under = ClockReading { local_seconds: -limit - 86_400, iso_week: 1 };
    assert_eq!(under.anchor_monday_7am(), None);
}

#[test]
fn context_at_a_reading_holds_its_anchor_and_week() {
    let reading = reading_at(moment(2024, 3, 14, 16, 20, 0));
    let ctx = RunContext::at(grid(), &reading).unwrap();
    assert_eq!(ctx.anchor_monday_7am(), moment(2024, 3, 11, 7, 0, 0).and_utc().timestamp());
    assert_eq!(ctx.current_iso_week(), 11);
    assert_eq!(*ctx.container(), grid());
    assert!(RunContext::at(grid(), &ClockReading { iso_week: 0, ..reading }).is_none());
}

#[test]
fn context_now_agrees_with_the_clock() {
    let before = chrono::Local::now().naive_local();
    let ctx = RunContext::now(grid());
    let after = chrono::Local::now().naive_local();
    let anchor = chrono::DateTime::from_timestamp(ctx.anchor_monday_7am(), 0).unwrap().naive_utc();
    assert_eq!(anchor.weekday(), Weekday::Mon);
    assert_eq!((anchor.hour(), anchor.minute(), anchor.second()), (7, 0, 0));
    let expected_before = reading_at(before).anchor_monday_7am().unwrap();
    let expected_after = reading_at(after).anchor_monday_7am().unwrap();
    assert!(ctx.anchor_monday_7am() == expected_before || ctx.anchor_monday_7am() == expected_after);
    assert!(
        ctx.current_iso_week() == before.iso_week().week()
            || ctx.current_iso_week() == after.iso_week().week()
    );
    assert_ne!(ctx.anchor_monday_7am(), 0);
}

#[test]
fn block_of_this_week_lands_in_this_week() {
    let reading = reading_at(moment(2024, 1, 4, 9, 0, 0));
    let ctx = RunContext::at(grid(), &reading).unwrap();
    let (start, duration) = decode(ctx.container(), 250, 100, 60, 0, ctx.anchor_monday_7am());
    assert_eq!(start, moment(2024, 1, 3, 8, 30, 0).and_utc().timestamp());
    assert_eq!(duration, 90);
}
