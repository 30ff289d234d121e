//! One run over several weeks: the weeks go out together, each to a worker of
//! its own, and the run ends when every week has come back.
//!
//! The weeks share nothing but the context, which none of them changes. They
//! may come back in any order: each outcome is kept in the place of its week,
//! so that the merged result is the same whatever the order was.

use crate::error::ScrapeError;
use crate::event::models;
use crate::clock::{days_from_monday, starts_by_the_clock};
use crate::geometry::{container_size, readable_grid, GridContainer, DAY_SECONDS, START_HOUR};
use crate::merge::{merge, merged_diagnostics, merged_events, outcome_models, MergedRun};
use crate::week::{planned_weeks, RunContext, WeekTarget};
use crate::worker::{OutcomeModel, StateModel, WeekOutcome, WeekWorker};
use vstd::prelude::*;

verus! {

/// A run: its weeks, and the outcomes that have come back so far.
#[derive(Debug)]
pub struct ScrapeRun {
    ctx: RunContext,
    slots: Vec<Option<WeekOutcome>>,
}

/// The views of the outcomes kept so far, one place for each week.
pub open spec fn slot_models(slots: Seq<Option<WeekOutcome>>) -> Seq<Option<OutcomeModel>> {
    slots.map_values(
        |slot: Option<WeekOutcome>|
            match slot {
                Some(outcome) => Some(outcome@),
                None => None,
            },
    )
}

/// The place of the week `iso_week` in a run that starts in the week `first`
/// and has `count` weeks; `None` for a week that is not one of the run's.
pub open spec fn place_of(first: int, count: int, iso_week: int) -> Option<int> {
    if first <= iso_week < first + count {
        Some(iso_week - first)
    } else {
        None
    }
}

/// The places after `outcome` has come back: it is kept where its week is
/// one of the run's and has not come back before, and dropped otherwise.
pub open spec fn after_collecting(
    first: int,
    kept: Seq<Option<OutcomeModel>>,
    outcome: OutcomeModel,
) -> Seq<Option<OutcomeModel>> {
    match place_of(first, kept.len() as int, outcome.iso_week as int) {
        Some(k) if kept[k] is None => kept.update(k, Some(outcome)),
        _ => kept,
    }
}

/// Every week has come back.
pub open spec fn all_back(kept: Seq<Option<OutcomeModel>>) -> bool {
    forall|k: int| 0 <= k < kept.len() ==> (#[trigger] kept[k]) is Some
}

/// The outcomes that were kept, in the order of the weeks.
pub open spec fn in_week_order(kept: Seq<Option<OutcomeModel>>) -> Seq<OutcomeModel>
    decreases kept.len(),
{
    if kept.len() == 0 {
        Seq::empty()
    } else {
        match kept.last() {
            Some(outcome) => in_week_order(kept.drop_last()).push(outcome),
            None => in_week_order(kept.drop_last()),
        }
    }
}

impl ScrapeRun {
    /// The context that the weeks share.
    pub closed spec fn context(self) -> RunContext {
        self.ctx
    }

    /// The outcomes kept so far, one place for each week of the run.
    pub closed spec fn kept(self) -> Seq<Option<OutcomeModel>> {
        slot_models(self.slots@)
    }

    /// The number of weeks of the run.
    pub open spec fn week_count(self) -> int {
        self.kept().len() as int
    }

    /// The run is well formed: it has at least one week, and every outcome
    /// stands in the place of its week. `start` makes such a run, and every
    /// method keeps it so.
    pub open spec fn wf(self) -> bool {
        &&& self.context().wf()
        &&& 1 <= self.week_count() <= i32::MAX
        &&& forall|k: int|
            0 <= k < self.kept().len() ==> ((#[trigger] self.kept()[k]) matches Some(outcome)
                ==> outcome.iso_week == self.context().current_week() + k)
    }

    /// Starts a run of `week_count` weeks from the current week on.
    ///
    /// Fails with `InvalidWeekCount` where `week_count` is less than one. No
    /// week has come back yet.
    pub fn start(ctx: RunContext, week_count: i32) -> (started: Result<ScrapeRun, ScrapeError>)
        ensures
            week_count <= 0 ==> (started matches Err(e) && e == ScrapeError::InvalidWeekCount),
            week_count > 0 ==> (started matches Ok(run) && run.wf() && run.context() == ctx
                && run.kept() == Seq::new(week_count as nat, |k: int| None::<OutcomeModel>)),
    {
        if week_count <= 0 {
            return Err(ScrapeError::InvalidWeekCount);
        }
        let mut slots: Vec<Option<WeekOutcome>> = Vec::new();
        let mut k: i32 = 0;
        while k < week_count
            invariant
                0 <= k <= week_count,
                slots.len() == k,
                forall|j: int| 0 <= j < k ==> (#[trigger] slots[j]) is None,
            decreases week_count - k,
        {
            slots.push(None);
            k += 1;
        }
        proof {
            use_type_invariant(&ctx);
        }
        Ok(ScrapeRun { ctx, slots })
    }

    /// Begins a run of `week_count` weeks now, by the local clock, on the page
    /// whose grid element has the style attribute `container_style` and shows
    /// `day_count` days.
    ///
    /// There are two ways for a run to fail as a whole, and both are met
    /// here: `ContainerUnavailable` where the attribute does not give a
    /// usable grid, and otherwise `InvalidWeekCount` where `week_count` is
    /// less than one. Whatever the clock says, a run that has begun has the
    /// grid of the attribute and `week_count` weeks, none of which is back;
    /// its context is that of a run that starts at some usable reading of the
    /// clock, so that its anchor is a Monday at seven o'clock.
    pub fn begin(container_style: &str, day_count: i32, week_count: i32) -> (begun: Result<
        ScrapeRun,
        ScrapeError,
    >)
        ensures
            begun is Ok <==> week_count > 0 && readable_grid(container_style@, day_count as int),
            begun matches Err(e) ==> e == (if readable_grid(container_style@, day_count as int) {
                ScrapeError::InvalidWeekCount
            } else {
                ScrapeError::ContainerUnavailable
            }),
            begun matches Ok(run) ==> run.wf() && run.kept() == Seq::new(
                week_count as nat,
                |k: int| None::<OutcomeModel>,
            ) && run.context().grid().days() == day_count && Some(
                (run.context().grid().width() as i32, run.context().grid().height() as i32),
            ) == container_size(container_style@),
            begun matches Ok(run) ==> starts_by_the_clock(run.context()) && run.context().anchor()
                % (DAY_SECONDS as int) == START_HOUR * 3_600 && days_from_monday(
                run.context().anchor(),
            ) == 0,
    {
        match GridContainer::from_style(container_style, day_count) {
            Ok(container) => ScrapeRun::start(RunContext::now(container), week_count),
            Err(e) => Err(e),
        }
    }

    /// The context that the weeks share.
    pub fn ctx(&self) -> (ctx: &RunContext)
        ensures
            *ctx == self.context(),
    {
        &self.ctx
    }

    /// The workers of the run, one for each week and none of them started:
    /// the first for the current week, the others for the weeks that follow.
    pub fn workers(&self) -> (workers: Vec<WeekWorker>)
        requires
            self.wf(),
        ensures
            workers.len() == self.week_count(),
            forall|k: int|
                0 <= k < workers.len() ==> (#[trigger] workers[k]).target == planned_weeks(
                    self.context().current_week(),
                    self.week_count(),
                )[k] && workers[k].state@ == StateModel::Idle,
    {
        let first = self.ctx.current_iso_week();
        let count = self.slots.len();
        let mut workers: Vec<WeekWorker> = Vec::new();
        let mut k: usize = 0;
        while k < count
            invariant
                k <= count,
                count == self.week_count(),
                count <= i32::MAX,
                1 <= first <= 53,
                first == self.context().current_week(),
                workers.len() == k,
                forall|j: int|
                    0 <= j < k ==> (#[trigger] workers[j]).target == planned_weeks(
                        first as int,
                        count as int,
                    )[j] && workers[j].state@ == StateModel::Idle,
            decreases count - k,
        {
            let target = WeekTarget { iso_week: first + k as u32, is_current_week: k == 0 };
            workers.push(WeekWorker::new(target));
            k += 1;
        }
        workers
    }

    /// Takes the outcome of a week that has come back.
    ///
    /// The outcome is kept in the place of its week. It is dropped, and
    /// `false` returned, where its week is not one of the run's or has come
    /// back before.
    pub fn collect(&mut self, outcome: WeekOutcome) -> (taken: bool)
        requires
            old(self).wf(),
        ensures
            final(self).wf(),
            final(self).context() == old(self).context(),
            final(self).kept() == after_collecting(
                old(self).context().current_week(),
                old(self).kept(),
                outcome@,
            ),
            taken == (final(self).kept() != old(self).kept()),
    {
        let first = self.ctx.current_iso_week();
        if outcome.iso_week < first {
            return false;
        }
        let k: usize = (outcome.iso_week - first) as usize;
        if k >= self.slots.len() {
            return false;
        }
        if self.slots[k].is_some() {
            return false;
        }
        let ghost before = slot_models(self.slots@);
        let ghost model = outcome@;
        self.slots.set(k, Some(outcome));
        assert(slot_models(self.slots@) =~= before.update(k as int, Some(model)));
        true
    }

    /// Whether every week has come back.
    pub fn is_complete(&self) -> (complete: bool)
        ensures
            complete == all_back(self.kept()),
    {
        let mut k: usize = 0;
        while k < self.slots.len()
            invariant
                k <= self.slots.len(),
                forall|j: int| 0 <= j < k ==> (#[trigger] self.kept()[j]) is Some,
            decreases self.slots.len() - k,
        {
            if self.slots[k].is_none() {
                return false;
            }
            assert(self.kept()[k as int] is Some);
            k += 1;
        }
        true
    }

    /// Ends the run: merges the outcomes in the order of the weeks.
    ///
    /// `None` while a week is still out: nothing is merged before every week
    /// has come back.
    pub fn finish(self) -> (merged: Option<MergedRun>)
        ensures
            all_back(self.kept()) ==> (merged matches Some(run) && models(run.events@)
                == merged_events(in_week_order(self.kept())) && run.diagnostics@
                == merged_diagnostics(in_week_order(self.kept()))),
            !all_back(self.kept()) ==> merged is None,
    {
        if !self.is_complete() {
            return None;
        }
        let ghost kept = self.kept();
        let mut outcomes: Vec<WeekOutcome> = Vec::new();
        for slot in it: self.slots
            invariant
                kept == slot_models(it.seq()),
                outcome_models(outcomes@) == in_week_order(kept.take(it.index())),
        {
            assert(kept.take(it.index() + 1).drop_last() =~= kept.take(it.index()));
            if let Some(outcome) = slot {
                outcomes.push(outcome);
            }
        }
        assert(kept.take(kept.len() as int) =~= kept);
        Some(merge(outcomes))
    }
}

/// The order in which two weeks come back does not matter: the places are
/// the same after both, whichever was first.
pub proof fn lemma_collecting_commutes(
    first: int,
    kept: Seq<Option<OutcomeModel>>,
    a: OutcomeModel,
    b: OutcomeModel,
)
    requires
        a.iso_week != b.iso_week,
    ensures
        after_collecting(first, after_collecting(first, kept, a), b) == after_collecting(
            first,
            after_collecting(first, kept, b),
            a,
        ),
{
}

/// An outcome whose week has come back already changes nothing: the first
/// outcome of a week is the one that stays.
pub proof fn lemma_collecting_twice(
    first: int,
    kept: Seq<Option<OutcomeModel>>,
    a: OutcomeModel,
    b: OutcomeModel,
)
    requires
        a.iso_week == b.iso_week,
    ensures
        after_collecting(first, after_collecting(first, kept, a), b) == after_collecting(
            first,
            kept,
            a,
        ),
{
}

} // verus!
