//! The ways in which a scrape, a week or a single block can fail.

use vstd::prelude::*;

verus! {

/// What went wrong, and thereby how far the failure reaches.
///
/// Only `ContainerUnavailable` and `InvalidWeekCount` end a run. A failed week
/// costs that week alone, and a failed block costs that block alone. A week
/// without any block is no failure at all.
#[derive(Clone, Copy, Debug, PartialEq, Eq, Structural)]
pub enum ScrapeError {
    /// The grid container could not be read, or its size gives no positive
    /// pixel ratios: nothing can be decoded.
    ContainerUnavailable,
    /// The run was asked for less than one week.
    InvalidWeekCount,
    /// The page holds no control that leads to the wanted week.
    PaginationNotFound,
    /// The page could not be reached or read for one week.
    PageAccessFailed,
    /// A block's text has fewer than four lines.
    MalformedEventText,
    /// A block's position or height is unreadable, its day is none of the
    /// grid's, or its duration is negative or longer than the grid's hours.
    /// The time of day is not held to the grid.
    GeometryOutOfRange,
}

impl ScrapeError {
    /// The failure ends the whole run.
    pub open spec fn is_fatal(self) -> bool {
        self == ScrapeError::ContainerUnavailable || self == ScrapeError::InvalidWeekCount
    }

    /// The failure concerns a single block of a week.
    pub open spec fn is_per_cell(self) -> bool {
        self == ScrapeError::MalformedEventText || self == ScrapeError::GeometryOutOfRange
    }

    /// Whether the failure ends the whole run.
    pub fn fatal(&self) -> (fatal: bool)
        ensures
            fatal == self.is_fatal(),
    {
        match self {
            ScrapeError::ContainerUnavailable => true,
            ScrapeError::InvalidWeekCount => true,
            _ => false,
        }
    }
}

} // verus!
