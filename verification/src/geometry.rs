//! From pixels to time: the grid container and the decoding of a block's
//! position and height into a weekday, a time of day and a duration.
//!
//! The grid shows the hours from 07:00 to 21:00 as 28 rows of half an hour and
//! the days of the week as columns of equal width. Moments are counted in
//! seconds on the local calendar, from 1970-01-01 00:00.

use crate::error::ScrapeError;
use crate::pixels::{pixel_pair, read_pixel_pair};
use vstd::prelude::*;

verus! {

/// The first hour that the grid shows.
pub const START_HOUR: i64 = 7;

/// The hour at which the grid ends.
pub const END_HOUR: i64 = 21;

/// The number of half-hour rows of the grid: two for each hour that it shows.
pub const HALF_HOUR_SLOTS: i32 = 28;

/// The minutes that one row stands for.
pub const SLOT_MINUTES: i64 = 30;

/// The seconds of a day.
pub const DAY_SECONDS: i64 = 86_400;

/// The seconds that every start is moved back by, for the page's time zone.
pub const ZONE_CORRECTION_SECONDS: i64 = 3_600;

/// The largest distance from 1970 that an anchor may have, in seconds. It
/// keeps every start within 64 bits.
pub const ANCHOR_LIMIT: i64 = 1_000_000_000_000_000;

/// The largest number of weeks, forward or back, that a block may lie from
/// the anchor's week. It keeps every start within 64 bits.
pub const WEEK_DELTA_LIMIT: i64 = 4_294_967_296;

/// `a / b` rounded toward zero, for a positive `b`.
pub open spec fn truncated_quotient(a: int, b: int) -> int {
    if a >= 0 {
        a / b
    } else {
        -((-a) / b)
    }
}

/// The size of the timetable's grid in pixels, and the number of its day
/// columns. The pixel ratios are derived from these, never stored.
#[derive(Clone, Copy, Debug, PartialEq, Eq)]
pub struct GridContainer {
    width_px: i32,
    height_px: i32,
    day_count: i32,
}

/// The measures of a grid are usable: all positive, and large enough for a
/// day column and a half-hour row to be at least one pixel.
pub open spec fn usable_grid(width_px: int, height_px: int, day_count: int) -> bool {
    width_px > 0 && height_px > 0 && day_count > 0 && width_px / day_count > 0 && height_px
        / (HALF_HOUR_SLOTS as int) > 0
}

/// The width and the height that the style attribute of the grid's element
/// gives: the lengths behind `width: ` and `height: `, read after the last
/// `hidden; `.
pub open spec fn container_size(style: Seq<char>) -> Option<(i32, i32)> {
    pixel_pair(style, "hidden; "@, "width: "@, "px; height: "@)
}

/// The style attribute `style` gives a usable grid of `day_count` days.
pub open spec fn readable_grid(style: Seq<char>, day_count: int) -> bool {
    container_size(style) matches Some(size) && usable_grid(
        size.0 as int,
        size.1 as int,
        day_count,
    )
}

/// Where a block stands in the grid, in units of time.
#[derive(Clone, Copy, Debug, PartialEq, Eq, Structural)]
pub struct Placement {
    /// Whole day columns to the left of the block: 0 for Monday.
    pub weekday_offset: i64,
    /// Minutes from the top of the grid to the top of the block.
    pub time_offset_minutes: i64,
    /// Minutes that the block's height stands for.
    pub duration_minutes: i64,
}

impl GridContainer {
    /// The width of the grid in pixels.
    pub closed spec fn width(self) -> int {
        self.width_px as int
    }

    /// The height of the grid in pixels.
    pub closed spec fn height(self) -> int {
        self.height_px as int
    }

    /// The number of day columns.
    pub closed spec fn days(self) -> int {
        self.day_count as int
    }

    /// The invariant of the type: the measures are usable.
    #[verifier::type_invariant]
    pub open spec fn wf(self) -> bool {
        usable_grid(self.width(), self.height(), self.days())
    }

    /// The width of one day column in pixels.
    pub open spec fn day_px(self) -> int {
        self.width() / self.days()
    }

    /// The height of one half-hour row in pixels.
    pub open spec fn half_hour_px(self) -> int {
        self.height() / (HALF_HOUR_SLOTS as int)
    }

    /// The whole day columns to the left of `x_px`: 0 for Monday. Nothing
    /// bounds it: a position outside the grid gives a day outside the week.
    pub open spec fn weekday_offset(self, x_px: int) -> int {
        truncated_quotient(x_px, self.day_px())
    }

    /// The minutes from the top of the grid down to `y_px`, in steps of 30.
    pub open spec fn time_offset_minutes(self, y_px: int) -> int {
        truncated_quotient(y_px, self.half_hour_px()) * SLOT_MINUTES
    }

    /// The minutes that a height of `block_height_px` stands for, in steps
    /// of 30.
    pub open spec fn duration_minutes(self, block_height_px: int) -> int {
        truncated_quotient(block_height_px, self.half_hour_px()) * SLOT_MINUTES
    }

    /// The start of a block, in seconds: the anchor, plus the block's days
    /// and minutes, plus seven days for each week between the anchor's week
    /// and the block's, less the hour of the zone correction.
    pub open spec fn start_seconds(
        self,
        x_px: int,
        y_px: int,
        week_delta: int,
        anchor_monday_7am: int,
    ) -> int {
        anchor_monday_7am + self.weekday_offset(x_px) * DAY_SECONDS + self.time_offset_minutes(
            y_px,
        ) * 60 + week_delta * 7 * DAY_SECONDS - ZONE_CORRECTION_SECONDS
    }

    /// A grid of the given measures. Fails with `ContainerUnavailable` where
    /// they are not usable.
    pub fn new(width_px: i32, height_px: i32, day_count: i32) -> (made: Result<
        GridContainer,
        ScrapeError,
    >)
        ensures
            made is Ok <==> usable_grid(width_px as int, height_px as int, day_count as int),
            made matches Ok(grid) ==> grid.wf() && grid.width() == width_px && grid.height()
                == height_px && grid.days() == day_count,
            made matches Err(e) ==> e == ScrapeError::ContainerUnavailable,
    {
        if width_px <= 0 || height_px <= 0 || day_count <= 0 {
            return Err(ScrapeError::ContainerUnavailable);
        }
        if width_px / day_count == 0 || height_px / HALF_HOUR_SLOTS == 0 {
            return Err(ScrapeError::ContainerUnavailable);
        }
        Ok(GridContainer { width_px, height_px, day_count })
    }

    /// Reads the grid from the style attribute of its element, for a page
    /// that shows `day_count` days. Fails with `ContainerUnavailable` where
    /// the attribute does not give a width and a height, or gives measures
    /// that are not usable.
    pub fn from_style(style: &str, day_count: i32) -> (made: Result<GridContainer, ScrapeError>)
        ensures
            made is Ok <==> readable_grid(style@, day_count as int),
            made matches Ok(grid) ==> grid.wf() && Some((grid.width() as i32, grid.height() as i32))
                == container_size(style@) && grid.days() == day_count,
            made matches Err(e) ==> e == ScrapeError::ContainerUnavailable,
    {
        match read_pixel_pair(style, "hidden; ", "width: ", "px; height: ") {
            Some((width_px, height_px)) => GridContainer::new(width_px, height_px, day_count),
            None => Err(ScrapeError::ContainerUnavailable),
        }
    }

    /// The width of the grid in pixels.
    pub fn width_px(&self) -> (w: i32)
        ensures
            w == self.width(),
    {
        self.width_px
    }

    /// The height of the grid in pixels.
    pub fn height_px(&self) -> (h: i32)
        ensures
            h == self.height(),
    {
        self.height_px
    }

    /// The number of day columns.
    pub fn day_count(&self) -> (n: i32)
        ensures
            n == self.days(),
    {
        self.day_count
    }

    /// The width of one day column in pixels.
    pub fn day_pixels(&self) -> (px: i32)
        ensures
            px == self.day_px(),
            px > 0,
    {
        proof {
            use_type_invariant(self);
        }
        self.width_px / self.day_count
    }

    /// The height of one half-hour row in pixels.
    pub fn half_hour_pixels(&self) -> (px: i32)
        ensures
            px == self.half_hour_px(),
            px > 0,
    {
        proof {
            use_type_invariant(self);
        }
        self.height_px / HALF_HOUR_SLOTS
    }

    /// Where a block stands in the grid.
    pub fn place(&self, x_px: i32, y_px: i32, block_height_px: i32) -> (placement: Placement)
        ensures
            placement.weekday_offset == self.weekday_offset(x_px as int),
            placement.time_offset_minutes == self.time_offset_minutes(y_px as int),
            placement.duration_minutes == self.duration_minutes(block_height_px as int),
    {
        let day = self.day_pixels();
        let row = self.half_hour_pixels();
        Placement {
            weekday_offset: quotient(x_px, day),
            time_offset_minutes: quotient(y_px, row) * SLOT_MINUTES,
            duration_minutes: quotient(block_height_px, row) * SLOT_MINUTES,
        }
    }
}

/// The day and the duration of a block are in range for a grid of `days`
/// columns: the day is one of the grid's, and the duration is neither
/// negative nor longer than the hours that the grid shows. The time of day is
/// not held to anything: a block above or below the grid keeps its day and its
/// duration, and starts before or after the grid's hours.
pub open spec fn day_and_duration_in_range(
    weekday_offset: int,
    duration_minutes: int,
    days: int,
) -> bool {
    0 <= weekday_offset < days && 0 <= duration_minutes <= HALF_HOUR_SLOTS * SLOT_MINUTES
}

impl Placement {
    /// Whether the day and the duration of the placement are in range for
    /// `container`. The time of day is not looked at.
    pub fn in_range(&self, container: &GridContainer) -> (inside: bool)
        ensures
            inside == day_and_duration_in_range(
                self.weekday_offset as int,
                self.duration_minutes as int,
                container.days(),
            ),
    {
        0 <= self.weekday_offset && self.weekday_offset < container.day_count() as i64 && 0
            <= self.duration_minutes && self.duration_minutes <= (HALF_HOUR_SLOTS as i64)
            * SLOT_MINUTES
    }
}

/// `a / b` rounded toward zero.
fn quotient(a: i32, b: i32) -> (q: i64)
    requires
        b > 0,
    ensures
        q == truncated_quotient(a as int, b as int),
        -2_147_483_648 <= q <= 2_147_483_647,
{
    let wide: i64 = a as i64;
    let by: i64 = b as i64;
    if wide >= 0 {
        proof {
            vstd::arithmetic::div_mod::lemma_div_nonincreasing(wide as int, by as int);
            vstd::arithmetic::div_mod::lemma_div_pos_is_pos(wide as int, by as int);
        }
        wide / by
    } else {
        proof {
            vstd::arithmetic::div_mod::lemma_div_nonincreasing(-wide as int, by as int);
            vstd::arithmetic::div_mod::lemma_div_pos_is_pos(-wide as int, by as int);
        }
        -((-wide) / by)
    }
}

/// Decodes a block's position and height into its start and its duration.
///
/// Returns the start in seconds and the duration in minutes. The start is
/// `anchor_monday_7am` (the Monday of the current week at 07:00) moved on by
/// the block's weekday, its time of day and `week_delta` weeks, and back by
/// the zone correction of one hour. Nothing is checked against the grid: a
/// block outside it gives a day outside the week or a negative duration, for
/// the caller to refuse. The anchor and the weeks have to lie within
/// `ANCHOR_LIMIT` and `WEEK_DELTA_LIMIT`, so that the start fits in 64 bits.
pub fn decode(
    container: &GridContainer,
    x_px: i32,
    y_px: i32,
    block_height_px: i32,
    week_delta: i64,
    anchor_monday_7am: i64,
) -> (decoded: (i64, i64))
    requires
        -WEEK_DELTA_LIMIT <= week_delta <= WEEK_DELTA_LIMIT,
        -ANCHOR_LIMIT <= anchor_monday_7am <= ANCHOR_LIMIT,
    ensures
        decoded.0 == container.start_seconds(
            x_px as int,
            y_px as int,
            week_delta as int,
            anchor_monday_7am as int,
        ),
        decoded.1 == container.duration_minutes(block_height_px as int),
{
    let day = container.day_pixels();
    let row = container.half_hour_pixels();
    let days: i64 = quotient(x_px, day) + week_delta * 7;
    let minutes: i64 = quotient(y_px, row) * SLOT_MINUTES;
    let start = anchor_monday_7am + days * DAY_SECONDS + minutes * 60 - ZONE_CORRECTION_SECONDS;
    (start, quotient(block_height_px, row) * SLOT_MINUTES)
}

/// The rows of the grid cover its hours: two rows of thirty minutes for each
/// hour from the first to the last.
pub proof fn lemma_slots_cover_the_hours()
    ensures
        HALF_HOUR_SLOTS == (END_HOUR - START_HOUR) * 2,
        HALF_HOUR_SLOTS * SLOT_MINUTES == (END_HOUR - START_HOUR) * 60,
{
}

/// Decoding has no hidden state: two results for the same grid, block, week
/// and anchor are the same result.
pub proof fn lemma_decode_is_repeatable(
    grid: GridContainer,
    x_px: int,
    y_px: int,
    block_height_px: int,
    week_delta: int,
    anchor_monday_7am: int,
    first: (i64, i64),
    second: (i64, i64),
)
    requires
        first.0 == grid.start_seconds(x_px, y_px, week_delta, anchor_monday_7am),
        first.1 == grid.duration_minutes(block_height_px),
        second.0 == grid.start_seconds(x_px, y_px, week_delta, anchor_monday_7am),
        second.1 == grid.duration_minutes(block_height_px),
    ensures
        first == second,
{
}

} // verus!
