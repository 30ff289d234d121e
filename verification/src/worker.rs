//! The worker of one week: what to ask of the page next, and what the week
//! came to.
//!
//! A worker never touches the page. It is told what happened and answers with
//! what is to be done: the caller opens pages, activates controls and lists
//! blocks. Within a week the order is fixed: a week other than the current one
//! is reached through its pagination control first, the blocks are listed
//! after that, and decoding comes last. Whatever fails, fails this week only.

use crate::cell::{
    block_models, cell_models, cells_given, cells_read, decode_blocks, decode_cells,
    decoded_events, skipped_cells, BlockMarkup, CellModel, RawCell, SkippedCell, WeekEvents,
};
use crate::error::ScrapeError;
use crate::event::{models, EventModel};
use crate::page::{label_of_week, week_label};
use crate::week::{RunContext, WeekTarget};
use vstd::prelude::*;

verus! {

/// How far a worker has come.
#[derive(Clone, Debug, PartialEq, Eq)]
pub enum WorkerState {
    /// Nothing was asked yet.
    Idle,
    /// The week's pagination control is being activated.
    Navigating,
    /// The page shows the week; its blocks are being listed.
    Fetching,
    /// The blocks were decoded.
    Done(WeekEvents),
    /// The week failed.
    Failed(ScrapeError),
}

/// What the caller reports to a worker.
#[derive(Clone, Debug, PartialEq, Eq)]
pub enum PageEvent {
    /// The worker may begin.
    Start,
    /// The pagination control was found and activated.
    WeekActivated,
    /// The page has no control with the wanted label.
    ControlMissing,
    /// The blocks that the page shows, as cells; none is a valid answer.
    Cells(Vec<RawCell>),
    /// The blocks that the page shows, as markup; none is a valid answer.
    Blocks(Vec<BlockMarkup>),
    /// The page could not be reached or read.
    AccessFailed,
}

/// What a worker asks of the caller.
#[derive(Clone, Debug, PartialEq, Eq)]
pub enum PageAction {
    /// Activate the pagination control whose text holds this label.
    ActivateWeek(String),
    /// List the blocks of the week that the page shows.
    ListCells,
    /// Nothing more: the week is done or has failed.
    Stop,
}

/// A worker's state as plain values.
pub enum StateModel {
    Idle,
    Navigating,
    Fetching,
    Done { events: Seq<EventModel>, skipped: Seq<SkippedCell> },
    Failed(ScrapeError),
}

/// A report to a worker as plain values. The blocks of a week are the cells
/// that they give, with `None` for a block that gives none.
pub enum EventReport {
    Start,
    WeekActivated,
    ControlMissing,
    Cells(Seq<Option<CellModel>>),
    AccessFailed,
}

/// A worker's request as plain values.
pub enum ActionModel {
    ActivateWeek(Seq<char>),
    ListCells,
    Stop,
}

impl View for WorkerState {
    type V = StateModel;

    open spec fn view(&self) -> StateModel {
        match self {
            WorkerState::Idle => StateModel::Idle,
            WorkerState::Navigating => StateModel::Navigating,
            WorkerState::Fetching => StateModel::Fetching,
            WorkerState::Done(week) => StateModel::Done {
                events: models(week.events@),
                skipped: week.skipped@,
            },
            WorkerState::Failed(e) => StateModel::Failed(*e),
        }
    }
}

impl View for PageEvent {
    type V = EventReport;

    open spec fn view(&self) -> EventReport {
        match self {
            PageEvent::Start => EventReport::Start,
            PageEvent::WeekActivated => EventReport::WeekActivated,
            PageEvent::ControlMissing => EventReport::ControlMissing,
            PageEvent::Cells(cells) => EventReport::Cells(cells_given(cell_models(cells@))),
            PageEvent::Blocks(blocks) => EventReport::Cells(cells_read(block_models(blocks@))),
            PageEvent::AccessFailed => EventReport::AccessFailed,
        }
    }
}

impl View for PageAction {
    type V = ActionModel;

    open spec fn view(&self) -> ActionModel {
        match self {
            PageAction::ActivateWeek(label) => ActionModel::ActivateWeek(label@),
            PageAction::ListCells => ActionModel::ListCells,
            PageAction::Stop => ActionModel::Stop,
        }
    }
}

impl StateModel {
    /// The week is over: done or failed.
    pub open spec fn is_final(self) -> bool {
        self is Done || self is Failed
    }
}

/// The state that follows `state` when `event` is reported, for the week
/// `target` of the run `ctx`.
///
/// A worker that is over stays as it is. A failure of the page fails the
/// week. From `Idle`, `Start` leads to `Fetching` for the current week and to
/// `Navigating` for any other; from `Navigating`, the activated control leads
/// to `Fetching` and the missing one to `PaginationNotFound`; from `Fetching`,
/// the blocks lead to `Done` with what they decode to. A report that the state
/// does not wait for fails the week with `PageAccessFailed`.
pub open spec fn next_state(
    ctx: RunContext,
    target: WeekTarget,
    state: StateModel,
    event: EventReport,
) -> StateModel {
    if state.is_final() {
        state
    } else {
        match (state, event) {
            (StateModel::Idle, EventReport::Start) => if target.is_current_week {
                StateModel::Fetching
            } else {
                StateModel::Navigating
            },
            (StateModel::Navigating, EventReport::WeekActivated) => StateModel::Fetching,
            (StateModel::Navigating, EventReport::ControlMissing) => StateModel::Failed(
                ScrapeError::PaginationNotFound,
            ),
            (StateModel::Fetching, EventReport::Cells(cells)) => StateModel::Done {
                events: decoded_events(ctx.grid(), ctx.anchor(), ctx.week_delta(target), cells),
                skipped: skipped_cells(ctx.grid(), ctx.anchor(), ctx.week_delta(target), cells),
            },
            _ => StateModel::Failed(ScrapeError::PageAccessFailed),
        }
    }
}

/// What a worker asks for on entering `state`: the activation of the week's
/// control, the list of blocks, or nothing more.
pub open spec fn request_in(target: WeekTarget, state: StateModel) -> ActionModel {
    match state {
        StateModel::Navigating => ActionModel::ActivateWeek(week_label(target.iso_week as nat)),
        StateModel::Fetching => ActionModel::ListCells,
        _ => ActionModel::Stop,
    }
}

/// The worker of one week.
#[derive(Clone, Debug, PartialEq, Eq)]
pub struct WeekWorker {
    /// The week that the worker is for.
    pub target: WeekTarget,
    /// How far it has come.
    pub state: WorkerState,
}

/// What a week came to.
#[derive(Debug, PartialEq, Eq)]
pub struct WeekOutcome {
    /// The ISO week number.
    pub iso_week: u32,
    /// The events and skipped cells of the week, or why it failed.
    pub result: Result<WeekEvents, ScrapeError>,
}

/// What a week came to, as plain values.
pub struct OutcomeModel {
    pub iso_week: u32,
    pub result: Result<(Seq<EventModel>, Seq<SkippedCell>), ScrapeError>,
}

impl View for WeekOutcome {
    type V = OutcomeModel;

    open spec fn view(&self) -> OutcomeModel {
        OutcomeModel {
            iso_week: self.iso_week,
            result: match self.result {
                Ok(week) => Ok((models(week.events@), week.skipped@)),
                Err(e) => Err(e),
            },
        }
    }
}

/// The outcome of a worker in `state`, once it is over.
pub open spec fn outcome_of(target: WeekTarget, state: StateModel) -> Option<OutcomeModel> {
    match state {
        StateModel::Done { events, skipped } => Some(
            OutcomeModel { iso_week: target.iso_week, result: Ok((events, skipped)) },
        ),
        StateModel::Failed(e) => Some(
            OutcomeModel { iso_week: target.iso_week, result: Err(e) },
        ),
        _ => None,
    }
}

impl WeekWorker {
    /// A worker for `target` that has done nothing yet.
    pub fn new(target: WeekTarget) -> (worker: WeekWorker)
        ensures
            worker.target == target,
            worker.state@ == StateModel::Idle,
    {
        WeekWorker { target, state: WorkerState::Idle }
    }

    /// Takes a report and says what to do next.
    ///
    /// The worker moves to the state that `next_state` gives and asks for what
    /// that state needs. Its target never changes.
    pub fn step(&mut self, ctx: &RunContext, event: PageEvent) -> (action: PageAction)
        ensures
            final(self).target == old(self).target,
            final(self).state@ == next_state(*ctx, old(self).target, old(self).state@, event@),
            action@ == request_in(old(self).target, final(self).state@),
    {
        let target = self.target;
        let over = match &self.state {
            WorkerState::Done(_) => true,
            WorkerState::Failed(_) => true,
            _ => false,
        };
        if over {
            return PageAction::Stop;
        }
        let waiting_to_start = match &self.state {
            WorkerState::Idle => true,
            _ => false,
        };
        let navigating = match &self.state {
            WorkerState::Navigating => true,
            _ => false,
        };
        match event {
            PageEvent::Start => {
                if waiting_to_start {
                    if target.is_current_week {
                        self.state = WorkerState::Fetching;
                        PageAction::ListCells
                    } else {
                        self.state = WorkerState::Navigating;
                        PageAction::ActivateWeek(label_of_week(target.iso_week))
                    }
                } else {
                    self.state = WorkerState::Failed(ScrapeError::PageAccessFailed);
                    PageAction::Stop
                }
            },
            PageEvent::WeekActivated => {
                if navigating {
                    self.state = WorkerState::Fetching;
                    PageAction::ListCells
                } else {
                    self.state = WorkerState::Failed(ScrapeError::PageAccessFailed);
                    PageAction::Stop
                }
            },
            PageEvent::ControlMissing => {
                if navigating {
                    self.state = WorkerState::Failed(ScrapeError::PaginationNotFound);
                } else {
                    self.state = WorkerState::Failed(ScrapeError::PageAccessFailed);
                }
                PageAction::Stop
            },
            PageEvent::Cells(cells) => {
                if !waiting_to_start && !navigating {
                    self.state = WorkerState::Done(decode_cells(ctx, &target, &cells));
                } else {
                    self.state = WorkerState::Failed(ScrapeError::PageAccessFailed);
                }
                PageAction::Stop
            },
            PageEvent::Blocks(blocks) => {
                if !waiting_to_start && !navigating {
                    self.state = WorkerState::Done(decode_blocks(ctx, &target, &blocks));
                } else {
                    self.state = WorkerState::Failed(ScrapeError::PageAccessFailed);
                }
                PageAction::Stop
            },
            PageEvent::AccessFailed => {
                self.state = WorkerState::Failed(ScrapeError::PageAccessFailed);
                PageAction::Stop
            },
        }
    }

    /// Whether the week is over.
    pub fn is_over(&self) -> (over: bool)
        ensures
            over == self.state@.is_final(),
    {
        match &self.state {
            WorkerState::Done(_) => true,
            WorkerState::Failed(_) => true,
            _ => false,
        }
    }

    /// What the week came to; `None` while the worker is not over.
    pub fn into_outcome(self) -> (outcome: Option<WeekOutcome>)
        ensures
            match outcome_of(self.target, self.state@) {
                Some(model) => outcome matches Some(o) && o@ == model,
                None => outcome is None,
            },
    {
        let iso_week = self.target.iso_week;
        match self.state {
            WorkerState::Done(week) => Some(WeekOutcome { iso_week, result: Ok(week) }),
            WorkerState::Failed(e) => Some(WeekOutcome { iso_week, result: Err(e) }),
            _ => None,
        }
    }
}

/// A worker that is over stays as it is, whatever is reported, and asks for
/// nothing more.
pub proof fn lemma_final_state_stays(
    ctx: RunContext,
    target: WeekTarget,
    state: StateModel,
    event: EventReport,
)
    requires
        state.is_final(),
    ensures
        next_state(ctx, target, state, event) == state,
        request_in(target, state) == ActionModel::Stop,
{
}

/// Navigation comes before the blocks are listed: a worker comes to list
/// them only at the start of the current week, or once the control of
/// another week was activated.
pub proof fn lemma_fetching_follows_navigation(
    ctx: RunContext,
    target: WeekTarget,
    state: StateModel,
    event: EventReport,
)
    requires
        next_state(ctx, target, state, event) is Fetching,
    ensures
        (state is Idle && event is Start && target.is_current_week) || (state is Navigating
            && event is WeekActivated),
{
}

/// Listing comes before decoding: a worker comes to be done only from the
/// listing of its blocks, and with what these decode to.
pub proof fn lemma_done_follows_fetching(
    ctx: RunContext,
    target: WeekTarget,
    state: StateModel,
    event: EventReport,
)
    requires
        !state.is_final(),
        next_state(ctx, target, state, event) is Done,
    ensures
        state is Fetching,
        event is Cells,
        next_state(ctx, target, state, event) == (StateModel::Done {
            events: decoded_events(
                ctx.grid(),
                ctx.anchor(),
                ctx.week_delta(target),
                event->Cells_0,
            ),
            skipped: skipped_cells(
                ctx.grid(),
                ctx.anchor(),
                ctx.week_delta(target),
                event->Cells_0,
            ),
        }),
{
}

/// A week whose page shows no blocks is done, with no events and nothing
/// skipped: it has not failed.
pub proof fn lemma_week_without_cells_is_done(ctx: RunContext, target: WeekTarget)
    ensures
        next_state(ctx, target, StateModel::Fetching, EventReport::Cells(Seq::empty())) == (
        StateModel::Done { events: Seq::empty(), skipped: Seq::empty() }),
{
}

/// What fails a week fails that week only: a worker never comes to fail
/// with a failure that ends the run, nor with one of a single block.
pub proof fn lemma_week_failures_stay_with_the_week(
    ctx: RunContext,
    target: WeekTarget,
    state: StateModel,
    event: EventReport,
)
    requires
        !state.is_final(),
    ensures
        next_state(ctx, target, state, event) matches StateModel::Failed(e) ==> !e.is_fatal()
            && !e.is_per_cell(),
{
}

/// A week fails with `PaginationNotFound` in one case only: its control was
/// looked for and is missing.
pub proof fn lemma_pagination_failure(
    ctx: RunContext,
    target: WeekTarget,
    state: StateModel,
    event: EventReport,
)
    requires
        !state.is_final(),
    ensures
        next_state(ctx, target, state, event) == StateModel::Failed(
            ScrapeError::PaginationNotFound,
        ) <==> state is Navigating && event is ControlMissing,
{
}

} // verus!
