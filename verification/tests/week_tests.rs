use ut1_timetable::error::ScrapeError;
use ut1_timetable::geometry::{GridContainer, ANCHOR_LIMIT};
use ut1_timetable::week::{RunContext, WeekTarget};

fn grid() -> GridContainer {
    GridContainer::new(700, 560, 7).unwrap()
}

#[test]
fn context_keeps_what_it_was_made_with() {
    let ctx = RunContext::new(grid(), 1_704_092_400, 1).unwrap();
    assert_eq!(*ctx.container(), grid());
    assert_eq!(ctx.anchor_monday_7am(), 1_704_092_400);
    assert_eq!(ctx.current_iso_week(), 1);
}

#[test]
fn context_wants_a_week_number_and_an_anchor_in_range() {
    assert!(RunContext::new(grid(), 0, 0).is_none());
    assert!(RunContext::new(grid(), 0, 54).is_none());
    assert!(RunContext::new(grid(), 0, 1).is_some());
    assert!(RunContext::new(grid(), 0, 53).is_some());
    assert!(RunContext::new(grid(), ANCHOR_LIMIT, 1).is_some());
    assert!(RunContext::new(grid(), -ANCHOR_LIMIT, 1).is_some());
    assert!(RunContext::new(grid(), ANCHOR_LIMIT + 1, 1).is_none());
    assert!(RunContext::new(grid(), -ANCHOR_LIMIT - 1, 1).is_none());
    assert!(RunContext::new(grid(), i64::MIN, 1).is_none());
}

#[test]
fn delta_is_signed() {
    let ctx = RunContext::new(grid(), 0, 10).unwrap();
    assert_eq!(ctx.delta_to(&WeekTarget { iso_week: 10, is_current_week: true }), 0);
    assert_eq!(ctx.delta_to(&WeekTarget { iso_week: 13, is_current_week: false }), 3);
    assert_eq!(ctx.delta_to(&WeekTarget { iso_week: 8, is_current_week: false }), -2);
    assert_eq!(ctx.delta_to(&WeekTarget { iso_week: u32::MAX, is_current_week: false }), 4_294_967_285);
    assert_eq!(ctx.delta_to(&WeekTarget { iso_week: 0, is_current_week: false }), -10);
}

#[test]
fn plan_counts_on_from_the_current_week() {
    let ctx = RunContext::new(grid(), 0, 12).unwrap();
    assert_eq!(
        ctx.plan_weeks(3),
        Ok(vec![
            WeekTarget { iso_week: 12, is_current_week: true },
            WeekTarget { iso_week: 13, is_current_week: false },
            WeekTarget { iso_week: 14, is_current_week: false },
        ])
    );
    assert_eq!(ctx.plan_weeks(1), Ok(vec![WeekTarget { iso_week: 12, is_current_week: true }]));
}

#[test]
fn plan_does_not_wrap_at_the_end_of_the_year() {
    let ctx = RunContext::new(grid(), 0, 52).unwrap();
    let weeks: Vec<u32> = ctx.plan_weeks(4).unwrap().iter().map(|t| t.iso_week).collect();
    assert_eq!(weeks, vec![52, 53, 54, 55]);
}

#[test]
fn plan_refuses_less_than_one_week() {
    let ctx = RunContext::new(grid(), 0, 12).unwrap();
    assert_eq!(ctx.plan_weeks(0), Err(ScrapeError::InvalidWeekCount));
    assert_eq!(ctx.plan_weeks(-1), Err(ScrapeError::InvalidWeekCount));
    assert_eq!(ctx.plan_weeks(i32::MIN), Err(ScrapeError::InvalidWeekCount));
}

#[test]
fn errors_say_how_far_they_reach() {
    assert!(ScrapeError::ContainerUnavailable.fatal());
    assert!(ScrapeError::InvalidWeekCount.fatal());
    assert!(!ScrapeError::PaginationNotFound.fatal());
    assert!(!ScrapeError::PageAccessFailed.fatal());
    assert!(!ScrapeError::MalformedEventText.fatal());
    assert!(!ScrapeError::GeometryOutOfRange.fatal());
}
