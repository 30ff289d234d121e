//! The calendar event that a decoded block becomes.

use crate::record::RecordModel;
use crate::text::texts;
use vstd::prelude::*;

verus! {

/// One event of the timetable.
///
/// An event is made once, from a block's decoded geometry and its parsed
/// text, and never changed afterwards.
#[derive(Clone, Debug, PartialEq, Eq)]
pub struct PlanningEvent {
    /// The start, in seconds on the local calendar from 1970-01-01 00:00.
    pub start: i64,
    /// The duration in seconds.
    pub duration_s: i64,
    /// The course.
    pub cours: String,
    /// The instructor.
    pub prof: String,
    /// The room.
    pub salle: String,
    /// The groups, in the order of the page; often none.
    pub groups: Vec<String>,
    /// The notes, on one line.
    pub notes: String,
}

/// An event as plain values.
pub struct EventModel {
    pub start: int,
    pub duration_s: int,
    pub cours: Seq<char>,
    pub prof: Seq<char>,
    pub salle: Seq<char>,
    pub groups: Seq<Seq<char>>,
    pub notes: Seq<char>,
}

impl View for PlanningEvent {
    type V = EventModel;

    open spec fn view(&self) -> EventModel {
        EventModel {
            start: self.start as int,
            duration_s: self.duration_s as int,
            cours: self.cours@,
            prof: self.prof@,
            salle: self.salle@,
            groups: texts(self.groups@),
            notes: self.notes@,
        }
    }
}

/// The views of a sequence of events.
pub open spec fn models(events: Seq<PlanningEvent>) -> Seq<EventModel> {
    events.map_values(|e: PlanningEvent| e@)
}

/// The event that starts at `start`, lasts `duration_minutes` and carries the
/// fields of `record`.
pub open spec fn event_of(start: int, duration_minutes: int, record: RecordModel) -> EventModel {
    EventModel {
        start,
        duration_s: duration_minutes * 60,
        cours: record.cours,
        prof: record.prof,
        salle: record.salle,
        groups: record.groups,
        notes: record.notes,
    }
}

impl PlanningEvent {
    /// The duration in whole minutes.
    pub open spec fn duration_minutes(self) -> int {
        self.duration_s as int / 60
    }
}

} // verus!
