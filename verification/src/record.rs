//! The text of an event block: from a fragment of markup to named fields.
//!
//! A block's text is a flattened fragment: an opening marker, a title in bold,
//! then fields that line breaks part, and the residue of the closing tag. The
//! fields have no labels; their position says what they are: the first line is
//! the course, the second the room, the third the instructor, the last line
//! the notes, and whatever stands between the third and the last names the
//! groups. A fragment that yields fewer than four lines is refused rather
//! than read with fields missing.
//!
//! The lines are taken as the page writes them. Nothing is trimmed, an empty
//! line counts as a line, and the course keeps the tag that opens its bold
//! type where the page writes one. Only the notes are changed: they are put
//! on one line.

use crate::error::ScrapeError;
use crate::text::{
    chars_of, last_piece, last_piece_of, split, split_on, string_of, texts, views,
};
use vstd::prelude::*;

verus! {

/// The named fields of an event's text.
#[derive(Clone, Debug, PartialEq, Eq)]
pub struct EventRecord {
    /// The course: the title of the block.
    pub cours: String,
    /// The room.
    pub salle: String,
    /// The instructor.
    pub prof: String,
    /// The groups, in the order of the page; often none.
    pub groups: Vec<String>,
    /// The notes, on one line.
    pub notes: String,
}

/// The fields of an event's text as sequences of characters.
pub struct RecordModel {
    pub cours: Seq<char>,
    pub salle: Seq<char>,
    pub prof: Seq<char>,
    pub groups: Seq<Seq<char>>,
    pub notes: Seq<char>,
}

impl View for EventRecord {
    type V = RecordModel;

    open spec fn view(&self) -> RecordModel {
        RecordModel {
            cours: self.cours@,
            salle: self.salle@,
            prof: self.prof@,
            groups: texts(self.groups@),
            notes: self.notes@,
        }
    }
}

/// The pieces of every one of `parts` cut at `pat`, in one sequence.
pub open spec fn split_each(parts: Seq<Seq<char>>, pat: Seq<char>) -> Seq<Seq<char>>
    decreases parts.len(),
{
    if parts.len() == 0 {
        Seq::empty()
    } else {
        split_each(parts.drop_last(), pat) + split(parts.last(), pat)
    }
}

/// What follows the opening marker of a block's text.
pub open spec fn content_of(blob: Seq<char>) -> Seq<char> {
    last_piece(blob, "eventText\">"@)
}

/// The lines of a block's text: the content cut at the end of the bold title
/// and at every line break, without the last piece, which is the residue of
/// the closing tag.
pub open spec fn lines_of(blob: Seq<char>) -> Seq<Seq<char>> {
    split_each(split(content_of(blob), "</b><br>"@), "<br>"@).drop_last()
}

/// `s` on one line: every line feed replaced by a blank.
pub open spec fn on_one_line(s: Seq<char>) -> Seq<char> {
    s.map_values(
        |c: char|
            if c == '\n' {
                ' '
            } else {
                c
            },
    )
}

/// The fields that the lines give by their position.
pub open spec fn record_of_lines(lines: Seq<Seq<char>>) -> Option<RecordModel> {
    if lines.len() < 4 {
        None
    } else {
        Some(
            RecordModel {
                cours: lines[0],
                salle: lines[1],
                prof: lines[2],
                groups: lines.subrange(3, lines.len() - 1),
                notes: on_one_line(lines.last()),
            },
        )
    }
}

/// The fields of a block's text; `None` where it has fewer than four lines.
pub open spec fn record_of(blob: Seq<char>) -> Option<RecordModel> {
    record_of_lines(lines_of(blob))
}

/// Cuts every one of `parts` at `pat` and gathers the pieces.
fn split_all(parts: &Vec<Vec<char>>, pat: &Vec<char>) -> (pieces: Vec<Vec<char>>)
    ensures
        views(pieces@) == split_each(views(parts@), pat@),
{
    let mut pieces: Vec<Vec<char>> = Vec::new();
    let mut i: usize = 0;
    while i < parts.len()
        invariant
            i <= parts.len(),
            views(pieces@) == split_each(views(parts@).take(i as int), pat@),
        decreases parts.len() - i,
    {
        let mut more = split_on(&parts[i], pat);
        pieces.append(&mut more);
        assert(views(parts@).take(i + 1).drop_last() =~= views(parts@).take(i as int));
        i += 1;
    }
    assert(views(parts@).take(parts.len() as int) =~= views(parts@));
    pieces
}

/// `s` with every line feed replaced by a blank.
fn unfold(s: &Vec<char>) -> (line: Vec<char>)
    ensures
        line@ == on_one_line(s@),
{
    let mut line: Vec<char> = Vec::new();
    let mut i: usize = 0;
    while i < s.len()
        invariant
            i <= s.len(),
            line@ == on_one_line(s@.take(i as int)),
        decreases s.len() - i,
    {
        let c = s[i];
        line.push(if c == '\n' {
            ' '
        } else {
            c
        });
        i += 1;
    }
    line
}

/// The lines of a block's text.
fn lines(text_blob: &str) -> (lines: Vec<Vec<char>>)
    ensures
        views(lines@) == lines_of(text_blob@),
{
    let chars = chars_of(text_blob);
    let content = last_piece_of(&chars, &chars_of("eventText\">"));
    let parts = split_on(&content, &chars_of("</b><br>"));
    let mut lines = split_all(&parts, &chars_of("<br>"));
    lines.pop();
    lines
}

/// Reads the fields of an event from the text of its block.
///
/// Fails with `MalformedEventText` where the text has fewer than four lines.
pub fn parse(text_blob: &str) -> (parsed: Result<EventRecord, ScrapeError>)
    ensures
        match record_of(text_blob@) {
            Some(fields) => parsed matches Ok(record) && record@ == fields,
            None => parsed == Err::<EventRecord, ScrapeError>(ScrapeError::MalformedEventText),
        },
{
    let lines = lines(text_blob);
    let n = lines.len();
    if n < 4 {
        return Err(ScrapeError::MalformedEventText);
    }
    let ghost model = views(lines@);
    let mut groups: Vec<String> = Vec::new();
    let mut i: usize = 3;
    while i < n - 1
        invariant
            n == lines.len(),
            n >= 4,
            3 <= i <= n - 1,
            model == views(lines@),
            texts(groups@) == model.subrange(3, i as int),
        decreases n - i,
    {
        let group = string_of(&lines[i]);
        let ghost before = texts(groups@);
        groups.push(group);
        assert(model.subrange(3, i + 1) =~= before.push(model[i as int]));
        i += 1;
    }
    Ok(
        EventRecord {
            cours: string_of(&lines[0]),
            salle: string_of(&lines[1]),
            prof: string_of(&lines[2]),
            groups,
            notes: string_of(&unfold(&lines[n - 1])),
        },
    )
}

} // verus!
