use ut1_timetable::cell::{RawCell, SkippedCell, WeekEvents};
use ut1_timetable::error::ScrapeError;
use ut1_timetable::event::PlanningEvent;
use ut1_timetable::geometry::GridContainer;
use ut1_timetable::merge::{merge, Diagnostic, MergedRun};
use ut1_timetable::week::RunContext;
use ut1_timetable::worker::{PageEvent, WeekOutcome, WeekWorker};

fn event(start: i64, title: &str) -> PlanningEvent {
    PlanningEvent {
        start,
        duration_s: 3_600,
        cours: title.to_string(),
        prof: "P".to_string(),
        salle: "S".to_string(),
        groups: vec!["G".to_string()],
        notes: String::new(),
    }
}

fn week(iso_week: u32, events: Vec<PlanningEvent>) -> WeekOutcome {
    WeekOutcome { iso_week, result: Ok(WeekEvents { events, skipped: vec![] }) }
}

fn failed(iso_week: u32, error: ScrapeError) -> WeekOutcome {
    WeekOutcome { iso_week, result: Err(error) }
}

fn sorted(mut events: Vec<PlanningEvent>) -> Vec<PlanningEvent> {
    events.sort_by(|a, b| (a.start, &a.cours).cmp(&(b.start, &b.cours)));
    events
}

#[test]
fn merge_of_nothing_is_empty() {
    assert_eq!(merge(vec![]), MergedRun { events: vec![], diagnostics: vec![] });
}

#[test]
fn merge_puts_the_weeks_in_a_row() {
    let run = merge(vec![
        week(10, vec![event(1, "a"), event(2, "b")]),
        week(11, vec![]),
        week(12, vec![event(3, "c")]),
    ]);
    assert_eq!(run.events, vec![event(1, "a"), event(2, "b"), event(3, "c")]);
    assert_eq!(run.diagnostics, vec![]);
}

#[test]
fn merge_keeps_four_weeks_when_the_third_of_five_fails() {
    let run = merge(vec![
        week(20, vec![event(1, "w1")]),
        week(21, vec![event(2, "w2a"), event(3, "w2b")]),
        failed(22, ScrapeError::PaginationNotFound),
        week(23, vec![event(4, "w4")]),
        week(24, vec![event(5, "w5")]),
    ]);
    assert_eq!(
        run.events,
        vec![event(1, "w1"), event(2, "w2a"), event(3, "w2b"), event(4, "w4"), event(5, "w5")]
    );
    assert_eq!(
        run.diagnostics,
        vec![Diagnostic { iso_week: 22, cell: None, error: ScrapeError::PaginationNotFound }]
    );
}

#[test]
fn merge_through_workers_isolates_the_week_without_its_control() {
    let ctx = RunContext::new(GridContainer::new(700, 560, 7).unwrap(), 1_704_092_400, 1).unwrap();
    let targets = ctx.plan_weeks(5).unwrap();
    let mut outcomes = vec![];
    for target in targets {
        let mut worker = WeekWorker::new(target);
        worker.step(&ctx, PageEvent::Start);
        if target.iso_week == 3 {
            worker.step(&ctx, PageEvent::ControlMissing);
        } else {
            if !target.is_current_week {
                worker.step(&ctx, PageEvent::WeekActivated);
            }
            let cell = RawCell {
                x_px: 0,
                y_px: 0,
                block_height_px: 20,
                text_blob: format!("week {}</b><br>S<br>P<br>N<br></div>", target.iso_week),
            };
            worker.step(&ctx, PageEvent::Cells(vec![cell]));
        }
        outcomes.push(worker.into_outcome().unwrap());
    }
    let run = merge(outcomes);
    let titles: Vec<&str> = run.events.iter().map(|e| e.cours.as_str()).collect();
    assert_eq!(titles, vec!["week 1", "week 2", "week 4", "week 5"]);
    let starts: Vec<i64> = run.events.iter().map(|e| e.start).collect();
    let base = 1_704_092_400 - 3_600;
    assert_eq!(starts, vec![base, base + 604_800, base + 3 * 604_800, base + 4 * 604_800]);
    assert_eq!(
        run.diagnostics,
        vec![Diagnostic { iso_week: 3, cell: None, error: ScrapeError::PaginationNotFound }]
    );
}

#[test]
fn merge_lists_skipped_cells_with_their_week() {
    let run = merge(vec![
        WeekOutcome {
            iso_week: 7,
            result: Ok(WeekEvents {
                events: vec![event(1, "a")],
                skipped: vec![
                    SkippedCell { index: 0, reason: ScrapeError::GeometryOutOfRange },
                    SkippedCell { index: 4, reason: ScrapeError::MalformedEventText },
                ],
            }),
        },
        failed(8, ScrapeError::PageAccessFailed),
        WeekOutcome {
            iso_week: 9,
            result: Ok(WeekEvents {
                events: vec![],
                skipped: vec![SkippedCell { index: 2, reason: ScrapeError::MalformedEventText }],
            }),
        },
    ]);
    assert_eq!(run.events, vec![event(1, "a")]);
    assert_eq!(
        run.diagnostics,
        vec![
            Diagnostic { iso_week: 7, cell: Some(0), error: ScrapeError::GeometryOutOfRange },
            Diagnostic { iso_week: 7, cell: Some(4), error: ScrapeError::MalformedEventText },
            Diagnostic { iso_week: 8, cell: None, error: ScrapeError::PageAccessFailed },
            Diagnostic { iso_week: 9, cell: Some(2), error: ScrapeError::MalformedEventText },
        ]
    );
}

#[test]
fn merge_is_untouched_by_an_empty_week() {
    let with = merge(vec![week(1, vec![event(1, "a")]), week(2, vec![]), week(3, vec![event(2, "b")])]);
    let without = merge(vec![week(1, vec![event(1, "a")]), week(3, vec![event(2, "b")])]);
    assert_eq!(with.events, without.events);
}

#[test]
fn merge_gives_the_same_events_in_whatever_order_the_weeks_come() {
    let outcomes = || {
        vec![
            week(1, vec![event(10, "a"), event(11, "b")]),
            failed(2, ScrapeError::PaginationNotFound),
            week(3, vec![event(30, "c")]),
            week(4, vec![event(10, "a")]),
        ]
    };
    let expected = sorted(merge(outcomes()).events);
    assert_eq!(expected.len(), 4);
    let orders: [[usize; 4]; 6] =
        [[0, 1, 2, 3], [3, 2, 1, 0], [1, 0, 3, 2], [2, 3, 0, 1], [1, 3, 0, 2], [3, 0, 2, 1]];
    for order in orders {
        let mut pool: Vec<Option<WeekOutcome>> = outcomes().into_iter().map(Some).collect();
        let arranged: Vec<WeekOutcome> = order.iter().map(|&i| pool[i].take().unwrap()).collect();
        assert_eq!(sorted(merge(arranged).events), expected);
    }
}
