//! The wall clock at the start of a run, and the anchor that is derived from
//! it: the Monday of the current week at 07:00.
//!
//! The clock is read once. Everything that depends on it is computed from the
//! reading, so that a run can be repeated with a reading of one's choice. The
//! day of the week is counted from the seconds: 1970-01-01 was a Thursday.

use crate::geometry::{GridContainer, ANCHOR_LIMIT, DAY_SECONDS, START_HOUR};
use crate::week::{usable_start, RunContext, LAST_ISO_WEEK};
use chrono::Datelike;
use vstd::prelude::*;

verus! {

/// What a run needs to know of the moment at which it starts.
#[derive(Clone, Copy, Debug, PartialEq, Eq, Structural)]
pub struct ClockReading {
    /// The local date and time, in seconds on the local calendar from
    /// 1970-01-01 00:00.
    pub local_seconds: i64,
    /// The ISO week number, from 1 to 53.
    pub iso_week: u32,
}

/// The ISO week number that chrono gives for the date of the moment
/// `local_seconds` on the local calendar.
pub uninterp spec fn iso_week_of(local_seconds: int) -> int;

/// Reads the local date and time with `chrono::Local::now` and takes from it
/// the seconds on the local calendar (`naive_local`, then `and_utc` and
/// `timestamp`) and the ISO week number (`iso_week`, then `week`). The week
/// number is the one of the date on which the seconds fall, and lies in the
/// range that chrono documents for it. The seconds lie within 10^13 of 1970,
/// as chrono's dates begin with the year -262143 and end with the year
/// 262142. Nothing else is known of the reading.
#[verifier::external_body]
fn read_local_clock() -> (reading: ClockReading)
    ensures
        -10_000_000_000_000 <= reading.local_seconds <= 10_000_000_000_000,
        1 <= reading.iso_week <= 53,
        reading.iso_week == iso_week_of(reading.local_seconds as int),
{
    let now = chrono::Local::now().naive_local();
    ClockReading { local_seconds: now.and_utc().timestamp(), iso_week: now.iso_week().week() }
}

/// The day of the week on which the moment `local_seconds` falls: 0 for
/// Monday, up to 6 for Sunday.
pub open spec fn days_from_monday(local_seconds: int) -> int {
    (local_seconds / (DAY_SECONDS as int) + 3) % 7
}

/// The Monday at 07:00 of the week in which the moment `local_seconds` falls.
pub open spec fn monday_7am(local_seconds: int) -> int {
    local_seconds - local_seconds % (DAY_SECONDS as int) - days_from_monday(local_seconds)
        * DAY_SECONDS + START_HOUR * 3_600
}

/// A reading from which a run can start: its anchor and its week number are
/// usable.
pub open spec fn usable_reading(reading: ClockReading) -> bool {
    usable_start(monday_7am(reading.local_seconds as int), reading.iso_week as int)
}

/// `ctx` is the context of a run that starts at the moment of `reading`.
pub open spec fn starts_at(ctx: RunContext, reading: ClockReading) -> bool {
    usable_reading(reading) && ctx.anchor() == monday_7am(reading.local_seconds as int)
        && ctx.current_week() == reading.iso_week
}

/// `ctx` is the context of a run that starts at some moment, with the week
/// number of the date on which that moment falls.
pub open spec fn starts_by_the_clock(ctx: RunContext) -> bool {
    exists|reading: ClockReading| #[trigger]
        starts_at(ctx, reading) && reading.iso_week == iso_week_of(reading.local_seconds as int)
}

/// The anchor of a moment is a Monday at seven o'clock, and the Monday of the
/// moment's own week: the moment falls on that Monday or on one of the six
/// days after it.
pub proof fn lemma_anchor_is_the_monday_of_the_week(local_seconds: int)
    ensures
        monday_7am(local_seconds) % (DAY_SECONDS as int) == START_HOUR * 3_600,
        days_from_monday(monday_7am(local_seconds)) == 0,
        monday_7am(local_seconds) - START_HOUR * 3_600 <= local_seconds < monday_7am(
            local_seconds,
        ) - START_HOUR * 3_600 + 7 * DAY_SECONDS,
{
    let day = local_seconds / 86_400;
    let weekday = (day + 3) % 7;
    let monday = day - weekday;
    assert(local_seconds == 86_400 * day + local_seconds % 86_400) by {
        vstd::arithmetic::div_mod::lemma_fundamental_div_mod(local_seconds, 86_400);
    }
    assert(monday_7am(local_seconds) == 86_400 * monday + 25_200);
    assert((86_400 * monday + 25_200) / 86_400 == monday && (86_400 * monday + 25_200) % 86_400
        == 25_200) by {
        vstd::arithmetic::div_mod::lemma_fundamental_div_mod_converse(
            86_400 * monday + 25_200,
            86_400,
            monday,
            25_200,
        );
    }
    assert((monday + 3) % 7 == 0) by {
        vstd::arithmetic::div_mod::lemma_fundamental_div_mod(day + 3, 7);
        let weeks = (day + 3) / 7;
        assert(monday + 3 == 7 * weeks);
        vstd::arithmetic::div_mod::lemma_fundamental_div_mod_converse(monday + 3, 7, weeks, 0);
    }
}

impl ClockReading {
    /// The day of the week of the reading: 0 for Monday, up to 6 for Sunday.
    pub fn weekday(&self) -> (days: u32)
        ensures
            days == days_from_monday(self.local_seconds as int),
            days <= 6,
    {
        let day: i64 = self.local_seconds.checked_div_euclid(DAY_SECONDS).unwrap();
        let days: i64 = (day + 3).checked_rem_euclid(7).unwrap();
        days as u32
    }

    /// The anchor of the reading: the Monday of its week at 07:00, in
    /// seconds. `None` where the reading is not usable.
    pub fn anchor_monday_7am(&self) -> (anchor: Option<i64>)
        ensures
            anchor is Some <==> usable_reading(*self),
            anchor matches Some(a) ==> a == monday_7am(self.local_seconds as int),
    {
        if self.iso_week < 1 || self.iso_week > LAST_ISO_WEEK {
            return None;
        }
        if self.local_seconds < -2 * ANCHOR_LIMIT || self.local_seconds > 2 * ANCHOR_LIMIT {
            return None;
        }
        let into_day: i64 = self.local_seconds.checked_rem_euclid(DAY_SECONDS).unwrap();
        let anchor = self.local_seconds - into_day - (self.weekday() as i64) * DAY_SECONDS
            + START_HOUR * 3_600;
        if anchor < -ANCHOR_LIMIT || anchor > ANCHOR_LIMIT {
            return None;
        }
        Some(anchor)
    }
}

impl RunContext {
    /// The context of a run that starts at the moment of `reading` on a page
    /// with the grid `container`. `None` where the reading is not usable.
    pub fn at(container: GridContainer, reading: &ClockReading) -> (made: Option<RunContext>)
        ensures
            made is Some <==> usable_reading(*reading),
            made matches Some(ctx) ==> ctx.wf() && ctx.grid() == container && starts_at(
                ctx,
                *reading,
            ),
    {
        match reading.anchor_monday_7am() {
            Some(anchor) => RunContext::new(container, anchor, reading.iso_week),
            None => None,
        }
    }

    /// The context of a run that starts now, by the local clock, on a page
    /// with the grid `container`.
    ///
    /// Whatever the clock says, the context has the given grid and is the
    /// context of a run that starts at some usable reading, whose week is the
    /// week of its date; so its anchor is a Monday at seven o'clock.
    pub fn now(container: GridContainer) -> (ctx: RunContext)
        ensures
            ctx.wf(),
            ctx.grid() == container,
            starts_by_the_clock(ctx),
            ctx.anchor() % (DAY_SECONDS as int) == START_HOUR * 3_600,
            days_from_monday(ctx.anchor()) == 0,
    {
        let reading = read_local_clock();
        let ctx = RunContext::at(container, &reading).unwrap();
        proof {
            lemma_anchor_is_the_monday_of_the_week(reading.local_seconds as int);
            assert(starts_at(ctx, reading));
        }
        ctx
    }
}

} // verus!
