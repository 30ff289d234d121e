//! Decoding of a browser-rendered weekly timetable into calendar events.
//!
//! The page gives no timestamps: every event block is known only by its pixel
//! position and size inside a fixed grid, and by a fragment of markup. This
//! crate turns those into start times, durations and text fields, and merges
//! the weeks of one run.

pub mod calendar;
pub mod cell;
pub mod clock;
pub mod decimal;
pub mod error;
pub mod event;
pub mod geometry;
pub mod merge;
pub mod page;
pub mod pixels;
pub mod record;
pub mod run;
pub mod text;
pub mod week;
pub mod worker;

pub use crate::event::PlanningEvent;
pub use crate::pixels::parse_int;
