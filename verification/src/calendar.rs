//! From events to a calendar: the texts that a calendar file holds for each
//! event, and the text of the file.
//!
//! An entry holds, as text, everything that the file states of one event. The
//! file's text is made by the `ics` crate, from a calendar object to which the
//! entries are added one by one. Saving the text is left to the caller.

use crate::event::{EventModel, PlanningEvent};
use vstd::prelude::*;

verus! {

/// The texts of one event in a calendar file.
#[derive(Clone, Debug, PartialEq, Eq)]
pub struct CalendarEntry {
    /// The identifier of the entry.
    pub uid: String,
    /// The moment at which the entry was made, as the file writes it.
    pub stamp: String,
    /// The start of the event, as the file writes it.
    pub start: String,
    /// The end of the event, as the file writes it.
    pub end: String,
    /// The course.
    pub summary: String,
    /// The room.
    pub location: String,
    /// The instructor.
    pub organizer: String,
    /// The notes.
    pub description: String,
}

/// The texts of one event in a calendar file, as plain values.
pub struct EntryModel {
    pub uid: Seq<char>,
    pub stamp: Seq<char>,
    pub start: Seq<char>,
    pub end: Seq<char>,
    pub summary: Seq<char>,
    pub location: Seq<char>,
    pub organizer: Seq<char>,
    pub description: Seq<char>,
}

impl View for CalendarEntry {
    type V = EntryModel;

    open spec fn view(&self) -> EntryModel {
        EntryModel {
            uid: self.uid@,
            stamp: self.stamp@,
            start: self.start@,
            end: self.end@,
            summary: self.summary@,
            location: self.location@,
            organizer: self.organizer@,
            description: self.description@,
        }
    }
}

/// The views of a sequence of entries.
pub open spec fn entry_models(entries: Seq<CalendarEntry>) -> Seq<EntryModel> {
    entries.map_values(|e: CalendarEntry| e@)
}

/// The first moment that chrono has a date for, in seconds since 1970-01-01
/// 00:00 UTC: its `NaiveDateTime::MIN`, the first second of the year -262143.
pub const FIRST_MOMENT: i64 = -8_334_601_228_800;

/// The last moment that chrono has a date for, in seconds since 1970-01-01
/// 00:00 UTC: its `NaiveDateTime::MAX`, the last second of the year 262142.
pub const LAST_MOMENT: i64 = 8_210_266_876_799;

/// The pattern of a date and time in a calendar file: year, month, day, `T`,
/// hour, minute, second, `Z`.
pub open spec fn time_pattern() -> Seq<char> {
    "%Y%m%dT%H%M%SZ"@
}

/// Chrono has a date for the moment `seconds`.
pub open spec fn has_date(seconds: int) -> bool {
    FIRST_MOMENT <= seconds <= LAST_MOMENT
}

/// The text that chrono's `format` writes for the moment `seconds` after
/// 1970-01-01 00:00 UTC under the pattern `pattern`; `None` where chrono
/// writes none.
pub uninterp spec fn formatted_time(seconds: int, pattern: Seq<char>) -> Option<Seq<char>>;

/// Formats a moment with chrono: `DateTime::from_timestamp` makes the date
/// and time in UTC of `seconds`, and `format` writes it under `pattern` with
/// `write_to`. `None` where chrono has no date for `seconds` or refuses the
/// pattern. Whether a text is returned, and which, depends on `seconds` and
/// `pattern` alone: neither call reads a clock, a locale or a time zone.
/// Under the pattern of calendar files a text is written for every moment
/// that chrono has a date for, from `NaiveDateTime::MIN` to
/// `NaiveDateTime::MAX`: the pattern asks for the year, the month, the day,
/// the hour, the minute and the second, and chrono writes each of these for
/// any date and time.
#[verifier::external_body]
fn format_time(seconds: i64, pattern: &str) -> (text: Option<String>)
    ensures
        match formatted_time(seconds as int, pattern@) {
            Some(written) => text matches Some(t) && t@ == written,
            None => text is None,
        },
        pattern@ == time_pattern() && has_date(seconds as int) ==> text is Some,
{
    let moment = chrono::DateTime::from_timestamp(seconds, 0)?;
    let mut text = String::new();
    moment.format(pattern).write_to(&mut text).ok()?;
    Some(text)
}

/// The seconds since 1970-01-01 00:00 UTC at this moment, from
/// `chrono::Utc::now` and `timestamp`. Of the value only this is known: it is
/// the moment of a `DateTime`, so chrono has a date for it.
#[verifier::external_body]
fn utc_now_seconds() -> (now: i64)
    ensures
        has_date(now as int),
{
    chrono::Utc::now().timestamp()
}

/// A fresh identifier: a random 64-bit number from `rand::random`, written
/// in decimal. Nothing is known of the text.
#[verifier::external_body]
fn fresh_uid() -> String {
    format!("{}", rand::random::<i64>())
}

/// `entry` states `event`: its texts are the event's, and its start and end
/// are the event's start and end under the pattern of calendar files.
pub open spec fn states(entry: EntryModel, event: EventModel) -> bool {
    &&& entry.summary == event.cours
    &&& entry.location == event.salle
    &&& entry.organizer == event.prof
    &&& entry.description == event.notes
    &&& Some(entry.start) == formatted_time(event.start, time_pattern())
    &&& Some(entry.end) == formatted_time(event.start + event.duration_s, time_pattern())
}

/// The entry of `event` with the identifier `uid`, made at the moment `now`
/// (in seconds since 1970-01-01 00:00 UTC): its stamp is `now`, its start and
/// end are the event's, all three under the pattern of calendar files, and
/// its other texts are the event's. There is none where the end of the event
/// lies beyond the range of 64 bits, or where one of the three moments cannot
/// be written.
pub open spec fn entry_of(event: EventModel, uid: Seq<char>, now: int) -> Option<EntryModel> {
    let end = event.start + event.duration_s;
    match (
        formatted_time(now, time_pattern()),
        formatted_time(event.start, time_pattern()),
        formatted_time(end, time_pattern()),
    ) {
        (Some(stamp), Some(start), Some(end_text)) if i64::MIN <= end <= i64::MAX => Some(
            EntryModel {
                uid,
                stamp,
                start,
                end: end_text,
                summary: event.cours,
                location: event.salle,
                organizer: event.prof,
                description: event.notes,
            },
        ),
        _ => None,
    }
}

/// `made` is `expected`: both are there or neither is, and where they are,
/// the entry has the expected texts.
pub open spec fn is_entry(made: Option<CalendarEntry>, expected: Option<EntryModel>) -> bool {
    match expected {
        Some(model) => made matches Some(entry) && entry@ == model,
        None => made is None,
    }
}

/// Makes the entry of `event` from the texts of its times.
///
/// `start` and `end` are the event's start and end as text, or `None` where
/// one of them could not be written; then there is no entry.
pub fn entry_from_texts(
    event: &PlanningEvent,
    uid: String,
    stamp: String,
    start: Option<String>,
    end: Option<String>,
) -> (made: Option<CalendarEntry>)
    ensures
        made is Some <==> start is Some && end is Some,
        made matches Some(entry) ==> entry@ == (EntryModel {
            uid: uid@,
            stamp: stamp@,
            start: start->0@,
            end: end->0@,
            summary: event@.cours,
            location: event@.salle,
            organizer: event@.prof,
            description: event@.notes,
        }),
{
    match (start, end) {
        (Some(start), Some(end)) => Some(
            CalendarEntry {
                uid,
                stamp,
                start,
                end,
                summary: event.cours.clone(),
                location: event.salle.clone(),
                organizer: event.prof.clone(),
                description: event.notes.clone(),
            },
        ),
        _ => None,
    }
}

/// Makes the calendar entry of an event with the identifier `uid`, at the
/// moment `now`, in seconds since 1970-01-01 00:00 UTC.
///
/// The entry is made exactly where the end of the event lies within the
/// range of 64 bits and the stamp, the start and the end can all be written;
/// it then holds exactly the texts of `entry_of`.
pub fn entry_at(event: &PlanningEvent, uid: String, now: i64) -> (made: Option<CalendarEntry>)
    ensures
        is_entry(made, entry_of(event@, uid@, now as int)),
        has_date(now as int) && owed_entry(event@) ==> made is Some,
{
    let end_seconds: i64 = match event.start.checked_add(event.duration_s) {
        Some(seconds) => seconds,
        None => {
            return None;
        },
    };
    let pattern = "%Y%m%dT%H%M%SZ";
    let stamp = match format_time(now, pattern) {
        Some(text) => text,
        None => {
            return None;
        },
    };
    let start = format_time(event.start, pattern);
    let end = format_time(end_seconds, pattern);
    entry_from_texts(event, uid, stamp, start, end)
}

/// `event` is owed an entry: chrono has a date for its start and for its end.
/// Its end then lies within the range of 64 bits.
pub open spec fn owed_entry(event: EventModel) -> bool {
    has_date(event.start) && has_date(event.start + event.duration_s)
}

/// `made` is what was made for `event` with some identifier at some moment:
/// the entry of `entry_of` for these, or nothing where `entry_of` has none.
pub open spec fn made_for(made: Option<CalendarEntry>, event: EventModel) -> bool {
    exists|uid: Seq<char>, now: int|
        i64::MIN <= now <= i64::MAX && is_entry(made, #[trigger] entry_of(event, uid, now))
}

/// Makes the calendar entry of an event, with a fresh identifier and the
/// present moment as its stamp.
///
/// Whatever the identifier and the clock come to, the result is what
/// `entry_at` makes with them: there is an identifier and a moment for which
/// the result is the entry of `entry_of`, or is missing where `entry_of` has
/// none. So an entry that is returned states the event, and none is returned
/// for an event whose end lies beyond the range of 64 bits or whose start or
/// end cannot be written. An event for whose start and end chrono has a date
/// always gets its entry.
pub fn calendar_entry(event: &PlanningEvent) -> (made: Option<CalendarEntry>)
    ensures
        made_for(made, event@),
        owed_entry(event@) ==> made is Some,
        made matches Some(entry) ==> states(entry@, event@),
        made is Some ==> i64::MIN <= event.start + event.duration_s <= i64::MAX,
{
    let uid = fresh_uid();
    let now = utc_now_seconds();
    let ghost identifier = uid@;
    let made = entry_at(event, uid, now);
    assert(is_entry(made, entry_of(event@, identifier, now as int)));
    made
}

/// Makes the calendar entries of `events`, one place for each event and in
/// the events' order: the entry of the event, or `None` where it has none.
///
/// Every place holds what `calendar_entry` makes for its event: the entry of
/// `entry_of` for some identifier and some moment, or nothing where
/// `entry_of` has none. So every entry states its event, and a place is empty
/// only for an event whose end lies beyond the range of 64 bits or for which
/// one of the three moments cannot be written. Every event for whose start
/// and end chrono has a date has its entry.
pub fn calendar_entries(events: &Vec<PlanningEvent>) -> (entries: Vec<Option<CalendarEntry>>)
    ensures
        entries.len() == events.len(),
        forall|i: int| 0 <= i < events.len() ==> made_for(#[trigger] entries[i], events[i]@),
        forall|i: int|
            0 <= i < events.len() && owed_entry(events[i]@) ==> (#[trigger] entries[i]) is Some,
        forall|i: int|
            0 <= i < events.len() ==> ((#[trigger] entries[i]) matches Some(entry) ==> states(
                entry@,
                events[i]@,
            )),
        forall|i: int|
            0 <= i < events.len() && (#[trigger] entries[i]) is Some ==> i64::MIN
                <= events[i].start + events[i].duration_s <= i64::MAX,
{
    let mut entries: Vec<Option<CalendarEntry>> = Vec::new();
    let mut i: usize = 0;
    while i < events.len()
        invariant
            i <= events.len(),
            entries.len() == i,
            forall|k: int| 0 <= k < i ==> made_for(#[trigger] entries[k], events[k]@),
            forall|k: int|
                0 <= k < i && owed_entry(events[k]@) ==> (#[trigger] entries[k]) is Some,
            forall|k: int|
                0 <= k < i ==> ((#[trigger] entries[k]) matches Some(entry) ==> states(
                    entry@,
                    events[k]@,
                )),
            forall|k: int|
                0 <= k < i && (#[trigger] entries[k]) is Some ==> i64::MIN <= events[k].start
                    + events[k].duration_s <= i64::MAX,
        decreases events.len() - i,
    {
        entries.push(calendar_entry(&events[i]));
        i += 1;
    }
    entries
}

/// The calendar object of the `ics` crate. Nothing of its inside is known
/// here but what the three names below say of it.
#[verifier::external_type_specification]
#[verifier::external_body]
pub struct ExICalendar<'a>(ics::ICalendar<'a>);

/// The version and the product identifier that a calendar object was made
/// with.
pub uninterp spec fn heading_of(calendar: ics::ICalendar<'static>) -> (Seq<char>, Seq<char>);

/// The events that were added to a calendar object, in the order in which
/// they were added, each as the texts of its properties.
pub uninterp spec fn entries_in(calendar: ics::ICalendar<'static>) -> Seq<EntryModel>;

/// The text that `ics` writes for a calendar object with the given version,
/// product identifier and events.
pub uninterp spec fn calendar_text(
    version: Seq<char>,
    product: Seq<char>,
    entries: Seq<EntryModel>,
) -> Seq<char>;

/// Makes a calendar object with `ics::ICalendar::new`: it has the given
/// version and product identifier, and no events.
#[verifier::external_body]
fn new_calendar(version: &str, product: &str) -> (calendar: ics::ICalendar<'static>)
    ensures
        heading_of(calendar) == (version@, product@),
        entries_in(calendar) == Seq::<EntryModel>::empty(),
{
    ics::ICalendar::new(version.to_owned(), product.to_owned())
}

/// Adds an event to a calendar object with `ics::ICalendar::add_event`. The
/// event is made with `ics::Event::new` from the entry's identifier and
/// stamp, and is given the entry's start, end, summary, location, organizer
/// and description, in this order, with `ics::Event::push`. The event comes
/// after those that the calendar holds already; the heading stays.
#[verifier::external_body]
fn add_entry(calendar: &mut ics::ICalendar<'static>, entry: &CalendarEntry)
    ensures
        heading_of(*final(calendar)) == heading_of(*old(calendar)),
        entries_in(*final(calendar)) == entries_in(*old(calendar)).push(entry@),
{
    let mut event = ics::Event::new(entry.uid.clone(), entry.stamp.clone());
    event.push(ics::properties::DtStart::new(entry.start.clone()));
    event.push(ics::properties::DtEnd::new(entry.end.clone()));
    event.push(ics::properties::Summary::new(entry.summary.clone()));
    event.push(ics::properties::Location::new(entry.location.clone()));
    event.push(ics::properties::Organizer::new(entry.organizer.clone()));
    event.push(ics::properties::Description::new(entry.description.clone()));
    calendar.add_event(event);
}

/// Writes a calendar object as text, through the `Display` that `ics` gives
/// it: the text depends on the heading and the events alone.
#[verifier::external_body]
fn write_calendar(calendar: &ics::ICalendar<'static>) -> (text: String)
    ensures
        text@ == calendar_text(
            heading_of(*calendar).0,
            heading_of(*calendar).1,
            entries_in(*calendar),
        ),
{
    calendar.to_string()
}

/// The text of a calendar file with the given version and product identifier
/// that holds `entries`, all of them and in their order.
pub fn calendar_file(version: &str, product: &str, entries: &Vec<CalendarEntry>) -> (text: String)
    ensures
        text@ == calendar_text(version@, product@, entry_models(entries@)),
{
    let mut calendar = new_calendar(version, product);
    let mut i: usize = 0;
    while i < entries.len()
        invariant
            i <= entries.len(),
            heading_of(calendar) == (version@, product@),
            entries_in(calendar) == entry_models(entries@).take(i as int),
        decreases entries.len() - i,
    {
        add_entry(&mut calendar, &entries[i]);
        i += 1;
    }
    assert(entry_models(entries@).take(entries.len() as int) =~= entry_models(entries@));
    write_calendar(&calendar)
}

} // verus!
