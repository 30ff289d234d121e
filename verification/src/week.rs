//! The weeks of a run: what all of them share, and the target of each.

use crate::error::ScrapeError;
use crate::geometry::{GridContainer, ANCHOR_LIMIT, WEEK_DELTA_LIMIT};
use vstd::prelude::*;

verus! {

/// The greatest ISO week number.
pub const LAST_ISO_WEEK: u32 = 53;

/// One week to scrape.
#[derive(Clone, Copy, Debug, PartialEq, Eq, Structural)]
pub struct WeekTarget {
    /// The ISO week number, counted on from the current week without
    /// wrapping at the end of a year.
    pub iso_week: u32,
    /// Whether this is the week that the page shows when it is opened, so
    /// that no pagination is needed to reach it.
    pub is_current_week: bool,
}

/// What every week of one run shares, fixed when the run starts: the grid,
/// the Monday of the current week at 07:00, and the current ISO week number.
#[derive(Clone, Copy, Debug, PartialEq, Eq)]
pub struct RunContext {
    container: GridContainer,
    anchor_monday_7am: i64,
    current_iso_week: u32,
}

/// An anchor and a week number that a run can start from.
pub open spec fn usable_start(anchor_monday_7am: int, current_iso_week: int) -> bool {
    -ANCHOR_LIMIT <= anchor_monday_7am <= ANCHOR_LIMIT && 1 <= current_iso_week <= LAST_ISO_WEEK
}

impl RunContext {
    /// The grid of the run.
    pub closed spec fn grid(self) -> GridContainer {
        self.container
    }

    /// The Monday of the current week at 07:00, in seconds.
    pub closed spec fn anchor(self) -> int {
        self.anchor_monday_7am as int
    }

    /// The ISO week number at the start of the run.
    pub closed spec fn current_week(self) -> int {
        self.current_iso_week as int
    }

    /// The invariant of the type.
    #[verifier::type_invariant]
    pub open spec fn wf(self) -> bool {
        self.grid().wf() && usable_start(self.anchor(), self.current_week())
    }

    /// The weeks from the current week to `target`; negative for a week
    /// before it.
    pub open spec fn week_delta(self, target: WeekTarget) -> int {
        target.iso_week - self.current_week()
    }

    /// The context of a run; `None` where the anchor lies further from 1970
    /// than `ANCHOR_LIMIT` or the week number is not one from 1 to 53.
    pub fn new(container: GridContainer, anchor_monday_7am: i64, current_iso_week: u32) -> (made:
        Option<RunContext>)
        ensures
            made is Some <==> usable_start(anchor_monday_7am as int, current_iso_week as int),
            made matches Some(ctx) ==> ctx.wf() && ctx.grid() == container && ctx.anchor()
                == anchor_monday_7am && ctx.current_week() == current_iso_week,
    {
        proof {
            use_type_invariant(&container);
        }
        if anchor_monday_7am < -ANCHOR_LIMIT || anchor_monday_7am > ANCHOR_LIMIT {
            return None;
        }
        if current_iso_week < 1 || current_iso_week > LAST_ISO_WEEK {
            return None;
        }
        Some(RunContext { container, anchor_monday_7am, current_iso_week })
    }

    /// The grid of the run.
    pub fn container(&self) -> (container: &GridContainer)
        ensures
            *container == self.grid(),
    {
        &self.container
    }

    /// The Monday of the current week at 07:00, in seconds.
    pub fn anchor_monday_7am(&self) -> (anchor: i64)
        ensures
            anchor == self.anchor(),
            -ANCHOR_LIMIT <= anchor <= ANCHOR_LIMIT,
    {
        proof {
            use_type_invariant(self);
        }
        self.anchor_monday_7am
    }

    /// The ISO week number at the start of the run.
    pub fn current_iso_week(&self) -> (week: u32)
        ensures
            week == self.current_week(),
            1 <= week <= LAST_ISO_WEEK,
    {
        proof {
            use_type_invariant(self);
        }
        self.current_iso_week
    }

    /// The weeks from the current week to `target`.
    pub fn delta_to(&self, target: &WeekTarget) -> (delta: i64)
        ensures
            delta == self.week_delta(*target),
            -WEEK_DELTA_LIMIT <= delta <= WEEK_DELTA_LIMIT,
    {
        target.iso_week as i64 - self.current_iso_week as i64
    }
}

/// The targets of a run of `week_count` weeks that starts in the week
/// `current_iso_week`: that week, marked as the current one, and the weeks
/// that follow it.
pub open spec fn planned_weeks(current_iso_week: int, week_count: int) -> Seq<WeekTarget> {
    Seq::new(
        week_count as nat,
        |k: int| WeekTarget { iso_week: (current_iso_week + k) as u32, is_current_week: k == 0 },
    )
}

impl RunContext {
    /// Makes the targets of a run: one for each of `week_count` consecutive
    /// weeks, the first of them the current week.
    ///
    /// Fails with `InvalidWeekCount` where `week_count` is less than one.
    /// Week numbers are counted on past the end of the year.
    pub fn plan_weeks(&self, week_count: i32) -> (plan: Result<Vec<WeekTarget>, ScrapeError>)
        ensures
            week_count <= 0 ==> plan == Err::<Vec<WeekTarget>, ScrapeError>(
                ScrapeError::InvalidWeekCount,
            ),
            week_count > 0 ==> (plan matches Ok(targets) && targets@ == planned_weeks(
                self.current_week(),
                week_count as int,
            )),
    {
        if week_count <= 0 {
            return Err(ScrapeError::InvalidWeekCount);
        }
        let first = self.current_iso_week();
        let count: u32 = week_count as u32;
        let mut targets: Vec<WeekTarget> = Vec::new();
        let mut k: u32 = 0;
        while k < count
            invariant
                k <= count,
                count == week_count,
                1 <= first <= 53,
                first == self.current_week(),
                targets@ == planned_weeks(first as int, k as int),
            decreases count - k,
        {
            targets.push(WeekTarget { iso_week: first + k, is_current_week: k == 0 });
            k += 1;
        }
        Ok(targets)
    }
}

} // verus!
