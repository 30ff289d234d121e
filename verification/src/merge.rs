//! The end of a run: the outcomes of its weeks merged into one collection of
//! events and one list of diagnostics.
//!
//! The weeks do not depend on each other. A week that failed gives no events
//! and one diagnostic; it takes nothing from the other weeks. The order of the
//! merged events follows the order of the outcomes, but the events as a
//! collection do not depend on it.

use crate::cell::SkippedCell;
use crate::error::ScrapeError;
use crate::event::{models, EventModel, PlanningEvent};
use crate::worker::{OutcomeModel, WeekOutcome};
use vstd::multiset::Multiset;
use vstd::prelude::*;

verus! {

/// A failure that was met and contained.
#[derive(Clone, Copy, Debug, PartialEq, Eq)]
pub struct Diagnostic {
    /// The ISO week number of the week concerned.
    pub iso_week: u32,
    /// The position of the cell concerned among the cells of its week;
    /// `None` where the whole week failed.
    pub cell: Option<usize>,
    /// What went wrong.
    pub error: ScrapeError,
}

/// What a run came to.
#[derive(Clone, Debug, PartialEq, Eq)]
pub struct MergedRun {
    /// The events of all the weeks that did not fail.
    pub events: Vec<PlanningEvent>,
    /// One entry for each week that failed and for each cell that was
    /// skipped.
    pub diagnostics: Vec<Diagnostic>,
}

/// The views of a sequence of outcomes.
pub open spec fn outcome_models(outcomes: Seq<WeekOutcome>) -> Seq<OutcomeModel> {
    outcomes.map_values(|o: WeekOutcome| o@)
}

/// The events that a week contributes: its own where it did not fail, none
/// where it did.
pub open spec fn events_of(outcome: OutcomeModel) -> Seq<EventModel> {
    match outcome.result {
        Ok((events, _)) => events,
        Err(_) => Seq::empty(),
    }
}

/// The diagnostic of a skipped cell of the week `iso_week`.
pub open spec fn cell_diagnostic(iso_week: u32, skipped: SkippedCell) -> Diagnostic {
    Diagnostic { iso_week, cell: Some(skipped.index), error: skipped.reason }
}

/// The diagnostics that a week contributes: one for each of its skipped
/// cells where it did not fail, one for the week where it did.
pub open spec fn diagnostics_of(outcome: OutcomeModel) -> Seq<Diagnostic> {
    match outcome.result {
        Ok((_, skipped)) => skipped.map_values(
            |s: SkippedCell| cell_diagnostic(outcome.iso_week, s),
        ),
        Err(error) => seq![Diagnostic { iso_week: outcome.iso_week, cell: None, error }],
    }
}

/// The events of all the outcomes, in the outcomes' order.
pub open spec fn merged_events(outcomes: Seq<OutcomeModel>) -> Seq<EventModel>
    decreases outcomes.len(),
{
    if outcomes.len() == 0 {
        Seq::empty()
    } else {
        merged_events(outcomes.drop_last()) + events_of(outcomes.last())
    }
}

/// The diagnostics of all the outcomes, in the outcomes' order.
pub open spec fn merged_diagnostics(outcomes: Seq<OutcomeModel>) -> Seq<Diagnostic>
    decreases outcomes.len(),
{
    if outcomes.len() == 0 {
        Seq::empty()
    } else {
        merged_diagnostics(outcomes.drop_last()) + diagnostics_of(outcomes.last())
    }
}

/// Merges the outcomes of the weeks of a run.
///
/// Never fails: a failed week is dropped from the events and kept as a
/// diagnostic.
pub fn merge(outcomes: Vec<WeekOutcome>) -> (run: MergedRun)
    ensures
        models(run.events@) == merged_events(outcome_models(outcomes@)),
        run.diagnostics@ == merged_diagnostics(outcome_models(outcomes@)),
{
    let mut events: Vec<PlanningEvent> = Vec::new();
    let mut diagnostics: Vec<Diagnostic> = Vec::new();
    let ghost all = outcome_models(outcomes@);
    for outcome in it: outcomes
        invariant
            all == outcome_models(it.seq()),
            models(events@) == merged_events(all.take(it.index())),
            diagnostics@ == merged_diagnostics(all.take(it.index())),
    {
        assert(all.take(it.index() + 1).drop_last() =~= all.take(it.index()));
        let iso_week = outcome.iso_week;
        match outcome.result {
            Ok(week) => {
                let mut found = week.events;
                events.append(&mut found);
                let ghost listed = diagnostics@;
                let mut k: usize = 0;
                while k < week.skipped.len()
                    invariant
                        k <= week.skipped.len(),
                        diagnostics@ == listed + week.skipped@.take(k as int).map_values(
                            |s: SkippedCell| cell_diagnostic(iso_week, s),
                        ),
                    decreases week.skipped.len() - k,
                {
                    let skipped = week.skipped[k];
                    diagnostics.push(
                        Diagnostic {
                            iso_week,
                            cell: Some(skipped.index),
                            error: skipped.reason,
                        },
                    );
                    k += 1;
                }
            },
            Err(error) => {
                diagnostics.push(Diagnostic { iso_week, cell: None, error });
            },
        }
    }
    assert(all.take(all.len() as int) =~= all);
    MergedRun { events, diagnostics }
}

/// The events of the outcomes as a collection without order.
pub open spec fn merged_bag(outcomes: Seq<OutcomeModel>) -> Multiset<EventModel> {
    merged_events(outcomes).to_multiset()
}

/// The events of two runs of outcomes, one after the other, are the events
/// of the first followed by the events of the second.
pub proof fn lemma_merged_events_concat(first: Seq<OutcomeModel>, second: Seq<OutcomeModel>)
    ensures
        merged_events(first + second) == merged_events(first) + merged_events(second),
    decreases second.len(),
{
    if second.len() > 0 {
        lemma_merged_events_concat(first, second.drop_last());
        assert((first + second).drop_last() =~= first + second.drop_last());
    }
}

/// The diagnostics of two runs of outcomes, one after the other, are the
/// diagnostics of the first followed by those of the second.
pub proof fn lemma_merged_diagnostics_concat(first: Seq<OutcomeModel>, second: Seq<OutcomeModel>)
    ensures
        merged_diagnostics(first + second) == merged_diagnostics(first) + merged_diagnostics(
            second,
        ),
    decreases second.len(),
{
    if second.len() > 0 {
        lemma_merged_diagnostics_concat(first, second.drop_last());
        assert((first + second).drop_last() =~= first + second.drop_last());
    }
}

/// What a single outcome merges to.
pub proof fn lemma_merged_single(outcome: OutcomeModel)
    ensures
        merged_events(seq![outcome]) == events_of(outcome),
        merged_diagnostics(seq![outcome]) == diagnostics_of(outcome),
{
    let one = seq![outcome];
    assert(merged_events(one.drop_last()) =~= Seq::<EventModel>::empty());
    assert(merged_diagnostics(one.drop_last()) =~= Seq::<Diagnostic>::empty());
}

/// A week without events, be it empty or failed, leaves the merged events of
/// the other weeks as they are without it, wherever it stands among them.
pub proof fn lemma_week_without_events_is_neutral(
    before: Seq<OutcomeModel>,
    week: OutcomeModel,
    after: Seq<OutcomeModel>,
)
    requires
        events_of(week).len() == 0,
    ensures
        merged_events(before + seq![week] + after) == merged_events(before + after),
        merged_events(before + after) == merged_events(before) + merged_events(after),
{
    lemma_merged_single(week);
    lemma_merged_events_concat(before, seq![week]);
    lemma_merged_events_concat(before + seq![week], after);
    lemma_merged_events_concat(before, after);
}

/// A week that failed takes no events from the weeks around it, and has its
/// own diagnostic in the merged list: the diagnostics are those of the weeks
/// before it, then the one of the failed week, then those of the weeks after.
pub proof fn lemma_failed_week_is_isolated(
    before: Seq<OutcomeModel>,
    failed: OutcomeModel,
    after: Seq<OutcomeModel>,
)
    requires
        failed.result is Err,
    ensures
        merged_events(before + seq![failed] + after) == merged_events(before) + merged_events(
            after,
        ),
        merged_diagnostics(before + seq![failed] + after) == merged_diagnostics(before) + seq![
            Diagnostic { iso_week: failed.iso_week, cell: None, error: failed.result->Err_0 },
        ] + merged_diagnostics(after),
{
    lemma_week_without_events_is_neutral(before, failed, after);
    lemma_merged_single(failed);
    lemma_merged_diagnostics_concat(before, seq![failed]);
    lemma_merged_diagnostics_concat(before + seq![failed], after);
}

/// Every event of a week that did not fail is among the merged events.
pub proof fn lemma_events_of_week_are_merged(outcomes: Seq<OutcomeModel>, i: int, k: int)
    requires
        0 <= i < outcomes.len(),
        0 <= k < events_of(outcomes[i]).len(),
    ensures
        merged_events(outcomes).contains(events_of(outcomes[i])[k]),
    decreases outcomes.len(),
{
    let rest = merged_events(outcomes.drop_last());
    let last = events_of(outcomes.last());
    let event = events_of(outcomes[i])[k];
    if i == outcomes.len() - 1 {
        assert((rest + last)[rest.len() + k] == event);
    } else {
        lemma_events_of_week_are_merged(outcomes.drop_last(), i, k);
        let at = choose|at: int| 0 <= at < rest.len() && rest[at] == event;
        assert((rest + last)[at] == event);
    }
}

/// Taking one outcome out takes exactly its events out of the collection.
proof fn lemma_merged_bag_remove(outcomes: Seq<OutcomeModel>, i: int)
    requires
        0 <= i < outcomes.len(),
    ensures
        merged_bag(outcomes) == merged_bag(outcomes.remove(i)).add(
            events_of(outcomes[i]).to_multiset(),
        ),
{
    let before = outcomes.take(i);
    let one = seq![outcomes[i]];
    let after = outcomes.skip(i + 1);
    assert(outcomes =~= before + one + after);
    lemma_merged_single(outcomes[i]);
    lemma_merged_events_concat(before, one);
    lemma_merged_events_concat(before + one, after);
    lemma_merged_events_concat(before, after);
    let b = merged_events(before);
    let x = events_of(outcomes[i]);
    let a = merged_events(after);
    vstd::seq_lib::lemma_multiset_commutative(b, x);
    vstd::seq_lib::lemma_multiset_commutative(b + x, a);
    vstd::seq_lib::lemma_multiset_commutative(b, a);
}

/// The merged events, taken as a collection without order, do not depend on
/// the order in which the weeks' outcomes arrive: two arrangements of the
/// same outcomes merge to the same events.
pub proof fn lemma_merge_ignores_order(first: Seq<OutcomeModel>, second: Seq<OutcomeModel>)
    requires
        first.to_multiset() == second.to_multiset(),
    ensures
        merged_events(first).to_multiset() == merged_events(second).to_multiset(),
    decreases first.len(),
{
    first.to_multiset_ensures();
    second.to_multiset_ensures();
    if first.len() > 0 {
        let last = first.last();
        assert(first.contains(last));
        assert(second.to_multiset().count(last) > 0);
        let j = choose|j: int| 0 <= j < second.len() && second[j] == last;
        let i = first.len() - 1;
        lemma_merge_ignores_order(first.remove(i), second.remove(j));
        lemma_merged_bag_remove(first, i);
        lemma_merged_bag_remove(second, j);
    }
}

} // verus!
