use chrono::{Datelike, NaiveDate, Timelike, Weekday};
use ut1_timetable::error::ScrapeError;
use ut1_timetable::geometry::{decode, GridContainer, Placement, ANCHOR_LIMIT, WEEK_DELTA_LIMIT};

fn seconds_of(year: i32, month: u32, day: u32, hour: u32, minute: u32) -> i64 {
    NaiveDate::from_ymd_opt(year, month, day)
        .unwrap()
        .and_hms_opt(hour, minute, 0)
        .unwrap()
        .and_utc()
        .timestamp()
}

fn week_grid() -> GridContainer {
    GridContainer::new(700, 560, 7).unwrap()
}

#[test]
fn grid_ratios_are_derived_from_the_measures() {
    let grid = week_grid();
    assert_eq!(grid.width_px(), 700);
    assert_eq!(grid.height_px(), 560);
    assert_eq!(grid.day_count(), 7);
    assert_eq!(grid.day_pixels(), 100);
    assert_eq!(grid.half_hour_pixels(), 20);
}

#[test]
fn grid_ratios_round_down() {
    let grid = GridContainer::new(705, 575, 7).unwrap();
    assert_eq!(grid.day_pixels(), 100);
    assert_eq!(grid.half_hour_pixels(), 20);
    let six = GridContainer::new(700, 560, 6).unwrap();
    assert_eq!(six.day_pixels(), 116);
}

#[test]
fn grid_without_positive_ratios_is_refused() {
    assert_eq!(GridContainer::new(0, 560, 7), Err(ScrapeError::ContainerUnavailable));
    assert_eq!(GridContainer::new(700, 0, 7), Err(ScrapeError::ContainerUnavailable));
    assert_eq!(GridContainer::new(-700, 560, 7), Err(ScrapeError::ContainerUnavailable));
    assert_eq!(GridContainer::new(700, 560, 0), Err(ScrapeError::ContainerUnavailable));
    assert_eq!(GridContainer::new(700, 560, -1), Err(ScrapeError::ContainerUnavailable));
    assert_eq!(GridContainer::new(6, 560, 7), Err(ScrapeError::ContainerUnavailable));
    assert_eq!(GridContainer::new(700, 27, 7), Err(ScrapeError::ContainerUnavailable));
    assert!(GridContainer::new(7, 28, 7).is_ok());
}

#[test]
fn decode_gives_wednesday_half_past_eight_for_ninety_minutes() {
    let grid = week_grid();
    let placement = grid.place(250, 100, 60);
    assert_eq!(
        placement,
        Placement { weekday_offset: 2, time_offset_minutes: 150, duration_minutes: 90 }
    );
    let monday = seconds_of(2024, 1, 1, 7, 0);
    let (start, duration) = decode(&grid, 250, 100, 60, 0, monday);
    assert_eq!(start, seconds_of(2024, 1, 3, 8, 30));
    assert_eq!(duration, 90);
    let moment = chrono::DateTime::from_timestamp(start, 0).unwrap().naive_utc();
    assert_eq!(moment.weekday(), Weekday::Wed);
    assert_eq!((moment.hour(), moment.minute(), moment.second()), (8, 30, 0));
}

#[test]
fn decode_twice_gives_the_same() {
    let grid = week_grid();
    let monday = seconds_of(2024, 1, 1, 7, 0);
    let first = decode(&grid, 431, 287, 45, 3, monday);
    let second = decode(&grid, 431, 287, 45, 3, monday);
    assert_eq!(first, second);
    assert_eq!(first, (monday + 4 * 86_400 + 14 * 1_800 + 21 * 86_400 - 3_600, 60));
}

#[test]
fn decode_moves_on_by_whole_weeks() {
    let grid = week_grid();
    let monday = seconds_of(2024, 12, 23, 7, 0);
    let (this_week, _) = decode(&grid, 0, 0, 20, 0, monday);
    let (in_two_weeks, _) = decode(&grid, 0, 0, 20, 2, monday);
    let (last_week, _) = decode(&grid, 0, 0, 20, -1, monday);
    assert_eq!(this_week, seconds_of(2024, 12, 23, 6, 0));
    assert_eq!(in_two_weeks, seconds_of(2025, 1, 6, 6, 0));
    assert_eq!(last_week, seconds_of(2024, 12, 16, 6, 0));
}

#[test]
fn decode_rounds_toward_zero_and_checks_nothing() {
    let grid = week_grid();
    let (start, duration) = decode(&grid, -150, -30, -50, 0, 0);
    assert_eq!(start, -86_400 - 30 * 60 - 3_600);
    assert_eq!(duration, -60);
    let (beyond, _) = decode(&grid, 950, 0, 20, 0, 0);
    assert_eq!(beyond, 9 * 86_400 - 3_600);
    let (short, none) = decode(&grid, 99, 19, 19, 0, 0);
    assert_eq!((short, none), (-3_600, 0));
}

#[test]
fn decode_stands_at_the_limits() {
    let grid = GridContainer::new(7, 28, 7).unwrap();
    let (start, duration) =
        decode(&grid, i32::MAX, i32::MAX, i32::MAX, WEEK_DELTA_LIMIT, ANCHOR_LIMIT);
    let x = i32::MAX as i64;
    assert_eq!(
        start,
        ANCHOR_LIMIT + x * 86_400 + x * 30 * 60 + WEEK_DELTA_LIMIT * 7 * 86_400 - 3_600
    );
    assert_eq!(duration, x * 30);
    let (low, negative) =
        decode(&grid, i32::MIN, i32::MIN, i32::MIN, -WEEK_DELTA_LIMIT, -ANCHOR_LIMIT);
    let m = i32::MIN as i64;
    assert_eq!(
        low,
        -ANCHOR_LIMIT + m * 86_400 + m * 30 * 60 - WEEK_DELTA_LIMIT * 7 * 86_400 - 3_600
    );
    assert_eq!(negative, m * 30);
}

#[test]
fn placement_is_in_range_by_day_and_duration_only() {
    let grid = week_grid();
    assert!(grid.place(0, 0, 20).in_range(&grid));
    assert!(grid.place(699, 540, 560).in_range(&grid));
    assert!(grid.place(250, -40, 60).in_range(&grid));
    assert!(grid.place(250, 100, 0).in_range(&grid));
    assert!(!grid.place(700, 0, 20).in_range(&grid));
    assert!(!grid.place(-100, 0, 20).in_range(&grid));
    assert!(!grid.place(0, 0, -20).in_range(&grid));
    assert!(!grid.place(0, 0, 580).in_range(&grid));
    let six = GridContainer::new(600, 560, 6).unwrap();
    assert!(six.place(599, 0, 20).in_range(&six));
    assert!(!six.place(600, 0, 20).in_range(&six));
}

#[test]
fn grid_is_read_from_the_style_of_its_element() {
    let style = "position: relative; overflow: hidden; width: 700px; height: 560px;";
    assert_eq!(GridContainer::from_style(style, 7), GridContainer::new(700, 560, 7));
    assert_eq!(GridContainer::from_style(style, 7).unwrap().day_pixels(), 100);
    assert_eq!(
        GridContainer::from_style("width: 1400px; height: 840px", 6),
        GridContainer::new(1400, 840, 6)
    );
    assert_eq!(
        GridContainer::from_style("hidden; width: 1px; hidden; width: 70px; height: 56px", 7),
        GridContainer::new(70, 56, 7)
    );
}

#[test]
fn grid_with_unreadable_style_is_unavailable() {
    for style in [
        "",
        "overflow: hidden;",
        "overflow: hidden; width: 700px;",
        "overflow: hidden; width: 700px; height: tall;",
        "overflow: hidden; width: wide; height: 560px;",
        "overflow: hidden; width: 700 px; height: 560px;",
        "overflow: hidden; width: 6px; height: 560px;",
        "overflow: hidden; width: 700px; height: 27px;",
        "overflow: hidden; width: -700px; height: 560px;",
    ] {
        assert_eq!(
            GridContainer::from_style(style, 7),
            Err(ScrapeError::ContainerUnavailable),
            "{:?}",
            style
        );
    }
    let good = "overflow: hidden; width: 700px; height: 560px;";
    assert_eq!(GridContainer::from_style(good, 0), Err(ScrapeError::ContainerUnavailable));
    assert_eq!(GridContainer::from_style(good, 701), Err(ScrapeError::ContainerUnavailable));
}
