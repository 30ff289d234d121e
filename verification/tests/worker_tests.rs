use ut1_timetable::cell::{BlockMarkup, RawCell, SkippedCell, WeekEvents};
use ut1_timetable::error::ScrapeError;
use ut1_timetable::geometry::GridContainer;
use ut1_timetable::week::{RunContext, WeekTarget};
use ut1_timetable::worker::{PageAction, PageEvent, WeekOutcome, WeekWorker, WorkerState};

const MONDAY: i64 = 1_704_092_400;

fn context() -> RunContext {
    RunContext::new(GridContainer::new(700, 560, 7).unwrap(), MONDAY, 1).unwrap()
}

fn current() -> WeekTarget {
    WeekTarget { iso_week: 1, is_current_week: true }
}

fn third() -> WeekTarget {
    WeekTarget { iso_week: 3, is_current_week: false }
}

fn good_cell() -> RawCell {
    RawCell {
        x_px: 250,
        y_px: 100,
        block_height_px: 60,
        text_blob: "A</b><br>B<br>C<br>D<br></div>".to_string(),
    }
}

fn bad_cell() -> RawCell {
    RawCell { x_px: 250, y_px: 100, block_height_px: 60, text_blob: "A".to_string() }
}

#[test]
fn worker_starts_idle() {
    let worker = WeekWorker::new(third());
    assert_eq!(worker.state, WorkerState::Idle);
    assert_eq!(worker.target, third());
    assert!(!worker.is_over());
    assert_eq!(worker.into_outcome(), None);
}

#[test]
fn current_week_is_fetched_without_pagination() {
    let ctx = context();
    let mut worker = WeekWorker::new(current());
    assert_eq!(worker.step(&ctx, PageEvent::Start), PageAction::ListCells);
    assert_eq!(worker.state, WorkerState::Fetching);
    assert_eq!(worker.step(&ctx, PageEvent::Cells(vec![good_cell()])), PageAction::Stop);
    assert!(worker.is_over());
    let outcome = worker.into_outcome().unwrap();
    assert_eq!(outcome.iso_week, 1);
    let week = outcome.result.unwrap();
    assert_eq!(week.events.len(), 1);
    assert_eq!(week.events[0].start, MONDAY + 2 * 86_400 + 150 * 60 - 3_600);
    assert_eq!(week.events[0].duration_s, 5_400);
    assert_eq!(week.skipped, vec![]);
}

#[test]
fn other_week_is_reached_through_its_control_first() {
    let ctx = context();
    let mut worker = WeekWorker::new(third());
    assert_eq!(worker.step(&ctx, PageEvent::Start), PageAction::ActivateWeek("(3)".to_string()));
    assert_eq!(worker.state, WorkerState::Navigating);
    assert_eq!(worker.step(&ctx, PageEvent::WeekActivated), PageAction::ListCells);
    assert_eq!(worker.state, WorkerState::Fetching);
    assert_eq!(worker.step(&ctx, PageEvent::Cells(vec![good_cell()])), PageAction::Stop);
    let week = worker.into_outcome().unwrap().result.unwrap();
    assert_eq!(week.events[0].start, MONDAY + 14 * 86_400 + 2 * 86_400 + 150 * 60 - 3_600);
}

#[test]
fn missing_control_fails_the_week() {
    let ctx = context();
    let mut worker = WeekWorker::new(third());
    worker.step(&ctx, PageEvent::Start);
    assert_eq!(worker.step(&ctx, PageEvent::ControlMissing), PageAction::Stop);
    assert_eq!(worker.state, WorkerState::Failed(ScrapeError::PaginationNotFound));
    assert_eq!(
        worker.into_outcome(),
        Some(WeekOutcome { iso_week: 3, result: Err(ScrapeError::PaginationNotFound) })
    );
}

#[test]
fn week_without_cells_is_done_and_empty() {
    let ctx = context();
    let mut worker = WeekWorker::new(current());
    worker.step(&ctx, PageEvent::Start);
    assert_eq!(worker.step(&ctx, PageEvent::Cells(vec![])), PageAction::Stop);
    assert_eq!(
        worker.into_outcome(),
        Some(WeekOutcome {
            iso_week: 1,
            result: Ok(WeekEvents { events: vec![], skipped: vec![] })
        })
    );
}

#[test]
fn bad_cell_does_not_fail_the_week() {
    let ctx = context();
    let mut worker = WeekWorker::new(current());
    worker.step(&ctx, PageEvent::Start);
    worker.step(&ctx, PageEvent::Cells(vec![bad_cell(), good_cell(), bad_cell()]));
    let week = worker.into_outcome().unwrap().result.unwrap();
    assert_eq!(week.events.len(), 1);
    assert_eq!(
        week.skipped,
        vec![
            SkippedCell { index: 0, reason: ScrapeError::MalformedEventText },
            SkippedCell { index: 2, reason: ScrapeError::MalformedEventText },
        ]
    );
}

#[test]
fn page_failure_fails_the_week_in_every_open_state() {
    let ctx = context();
    let mut idle = WeekWorker::new(third());
    assert_eq!(idle.step(&ctx, PageEvent::AccessFailed), PageAction::Stop);
    assert_eq!(idle.state, WorkerState::Failed(ScrapeError::PageAccessFailed));
    let mut navigating = WeekWorker::new(third());
    navigating.step(&ctx, PageEvent::Start);
    assert_eq!(navigating.step(&ctx, PageEvent::AccessFailed), PageAction::Stop);
    assert_eq!(navigating.state, WorkerState::Failed(ScrapeError::PageAccessFailed));
    let mut fetching = WeekWorker::new(current());
    fetching.step(&ctx, PageEvent::Start);
    assert_eq!(fetching.step(&ctx, PageEvent::AccessFailed), PageAction::Stop);
    assert_eq!(fetching.state, WorkerState::Failed(ScrapeError::PageAccessFailed));
}

#[test]
fn report_out_of_turn_fails_the_week() {
    let ctx = context();
    let mut worker = WeekWorker::new(third());
    assert_eq!(worker.step(&ctx, PageEvent::Cells(vec![good_cell()])), PageAction::Stop);
    assert_eq!(worker.state, WorkerState::Failed(ScrapeError::PageAccessFailed));
    let mut worker = WeekWorker::new(third());
    worker.step(&ctx, PageEvent::Start);
    assert_eq!(worker.step(&ctx, PageEvent::Cells(vec![good_cell()])), PageAction::Stop);
    assert_eq!(worker.state, WorkerState::Failed(ScrapeError::PageAccessFailed));
    let mut worker = WeekWorker::new(current());
    worker.step(&ctx, PageEvent::Start);
    assert_eq!(worker.step(&ctx, PageEvent::WeekActivated), PageAction::Stop);
    assert_eq!(worker.state, WorkerState::Failed(ScrapeError::PageAccessFailed));
    let mut worker = WeekWorker::new(current());
    worker.step(&ctx, PageEvent::Start);
    assert_eq!(worker.step(&ctx, PageEvent::Start), PageAction::Stop);
    assert_eq!(worker.state, WorkerState::Failed(ScrapeError::PageAccessFailed));
    let mut worker = WeekWorker::new(current());
    assert_eq!(worker.step(&ctx, PageEvent::ControlMissing), PageAction::Stop);
    assert_eq!(worker.state, WorkerState::Failed(ScrapeError::PageAccessFailed));
}

#[test]
fn worker_that_is_over_stays_as_it_is() {
    let ctx = context();
    let mut done = WeekWorker::new(current());
    done.step(&ctx, PageEvent::Start);
    done.step(&ctx, PageEvent::Cells(vec![good_cell()]));
    let before = done.clone();
    for event in [
        PageEvent::Start,
        PageEvent::WeekActivated,
        PageEvent::ControlMissing,
        PageEvent::Cells(vec![]),
        PageEvent::Blocks(vec![]),
        PageEvent::AccessFailed,
    ] {
        assert_eq!(done.step(&ctx, event), PageAction::Stop);
        assert_eq!(done, before);
    }
    let mut failed = WeekWorker::new(third());
    failed.step(&ctx, PageEvent::Start);
    failed.step(&ctx, PageEvent::ControlMissing);
    assert_eq!(failed.step(&ctx, PageEvent::Cells(vec![good_cell()])), PageAction::Stop);
    assert_eq!(failed.state, WorkerState::Failed(ScrapeError::PaginationNotFound));
}

#[test]
fn blocks_of_markup_are_read_and_decoded() {
    let ctx = context();
    let mut worker = WeekWorker::new(third());
    worker.step(&ctx, PageEvent::Start);
    worker.step(&ctx, PageEvent::WeekActivated);
    let blocks = vec![
        BlockMarkup {
            block_style: "position: absolute; left: 250px; top: 100px;".to_string(),
            table_style: "height:60px;".to_string(),
            content: "<div class=\"eventText\"><b>A</b><br>B<br>C<br>D<br></div>".to_string(),
        },
        BlockMarkup {
            block_style: "position: absolute;".to_string(),
            table_style: "height:60px;".to_string(),
            content: "<div class=\"eventText\"><b>A</b><br>B<br>C<br>D<br></div>".to_string(),
        },
    ];
    assert_eq!(worker.step(&ctx, PageEvent::Blocks(blocks)), PageAction::Stop);
    let week = worker.into_outcome().unwrap().result.unwrap();
    assert_eq!(week.events.len(), 1);
    assert_eq!(week.events[0].cours, "<b>A");
    assert_eq!(week.events[0].start, MONDAY + 16 * 86_400 + 150 * 60 - 3_600);
    assert_eq!(
        week.skipped,
        vec![SkippedCell { index: 1, reason: ScrapeError::GeometryOutOfRange }]
    );
}

#[test]
fn blocks_out_of_turn_fail_the_week() {
    let ctx = context();
    let mut worker = WeekWorker::new(third());
    assert_eq!(worker.step(&ctx, PageEvent::Blocks(vec![])), PageAction::Stop);
    assert_eq!(worker.state, WorkerState::Failed(ScrapeError::PageAccessFailed));
    let mut worker = WeekWorker::new(current());
    worker.step(&ctx, PageEvent::Start);
    assert_eq!(worker.step(&ctx, PageEvent::Blocks(vec![])), PageAction::Stop);
    assert_eq!(worker.state, WorkerState::Done(WeekEvents { events: vec![], skipped: vec![] }));
}
