//! Raw cells: the blocks of one week as the page gives them, and their
//! decoding into events.
//!
//! A page gives a block either as a cell, with its position and height in
//! numbers, or as markup, from which these are read first. A block that
//! cannot be read or decoded is left out and noted; the blocks beside it are
//! decoded as if it were not there.

use crate::error::ScrapeError;
use crate::event::{event_of, models, EventModel, PlanningEvent};
use crate::geometry::{day_and_duration_in_range, decode, GridContainer};
use crate::pixels::{pixel_pair, pixel_value, pixels_of, read_pixel_pair};
use crate::record::{parse, record_of};
use crate::text::{chars_of, last_piece, last_piece_of};
use crate::week::{RunContext, WeekTarget};
use vstd::prelude::*;

verus! {

/// One block of a week, before any decoding.
#[derive(Clone, Debug, PartialEq, Eq)]
pub struct RawCell {
    /// The distance of the block's left edge from the grid's, in pixels.
    pub x_px: i32,
    /// The distance of the block's top from the grid's, in pixels.
    pub y_px: i32,
    /// The height of the block in pixels.
    pub block_height_px: i32,
    /// The markup of the block's text.
    pub text_blob: String,
}

/// A raw cell as plain values.
pub struct CellModel {
    pub x_px: int,
    pub y_px: int,
    pub block_height_px: int,
    pub text_blob: Seq<char>,
}

impl View for RawCell {
    type V = CellModel;

    open spec fn view(&self) -> CellModel {
        CellModel {
            x_px: self.x_px as int,
            y_px: self.y_px as int,
            block_height_px: self.block_height_px as int,
            text_blob: self.text_blob@,
        }
    }
}

/// The views of a sequence of cells.
pub open spec fn cell_models(cells: Seq<RawCell>) -> Seq<CellModel> {
    cells.map_values(|c: RawCell| c@)
}

/// One block of a week as markup: two style attributes and the block's text.
#[derive(Clone, Debug, PartialEq, Eq)]
pub struct BlockMarkup {
    /// The style attribute of the block, which holds its position.
    pub block_style: String,
    /// The style attribute of the table inside the block, which holds the
    /// block's height.
    pub table_style: String,
    /// The markup of the block's text.
    pub content: String,
}

/// A block's markup as plain values.
pub struct BlockModel {
    pub block_style: Seq<char>,
    pub table_style: Seq<char>,
    pub content: Seq<char>,
}

impl View for BlockMarkup {
    type V = BlockModel;

    open spec fn view(&self) -> BlockModel {
        BlockModel {
            block_style: self.block_style@,
            table_style: self.table_style@,
            content: self.content@,
        }
    }
}

/// The views of a sequence of blocks.
pub open spec fn block_models(blocks: Seq<BlockMarkup>) -> Seq<BlockModel> {
    blocks.map_values(|b: BlockMarkup| b@)
}

/// The position that a block's style attribute gives: the lengths behind
/// `left: ` and `top: `, read after the last `absolute; `.
pub open spec fn block_position(block_style: Seq<char>) -> Option<(i32, i32)> {
    pixel_pair(block_style, "absolute; "@, "left: "@, "px; top: "@)
}

/// The height that the style attribute of a block's table gives: the length
/// behind the last `height:`.
pub open spec fn block_height(table_style: Seq<char>) -> Option<i32> {
    pixel_value(last_piece(table_style, "height:"@))
}

/// The cell that a block's attributes and content give, where both
/// attributes can be read.
pub open spec fn cell_of_markup(
    block_style: Seq<char>,
    table_style: Seq<char>,
    content: Seq<char>,
) -> Option<CellModel> {
    match (block_position(block_style), block_height(table_style)) {
        (Some(position), Some(height)) => Some(
            CellModel {
                x_px: position.0 as int,
                y_px: position.1 as int,
                block_height_px: height as int,
                text_blob: content,
            },
        ),
        _ => None,
    }
}

/// Cells that the page gave in numbers: every one of them is there.
pub open spec fn cells_given(cells: Seq<CellModel>) -> Seq<Option<CellModel>> {
    cells.map_values(|c: CellModel| Some(c))
}

/// The cells that blocks of markup give: for each block its cell, or `None`
/// where its attributes cannot be read.
pub open spec fn cells_read(blocks: Seq<BlockModel>) -> Seq<Option<CellModel>> {
    blocks.map_values(|b: BlockModel| cell_of_markup(b.block_style, b.table_style, b.content))
}

impl RawCell {
    /// Reads a cell from the style attribute of a block, the style attribute
    /// of the table inside it, and the markup of its text.
    ///
    /// `None` where the position or the height cannot be read.
    pub fn from_markup(block_style: &str, table_style: &str, content: &str) -> (cell: Option<
        RawCell,
    >)
        ensures
            match cell_of_markup(block_style@, table_style@, content@) {
                Some(model) => cell matches Some(c) && c@ == model,
                None => cell is None,
            },
    {
        let position = read_pixel_pair(block_style, "absolute; ", "left: ", "px; top: ");
        let table = chars_of(table_style);
        let height = pixels_of(&last_piece_of(&table, &chars_of("height:")));
        match (position, height) {
            (Some((x_px, y_px)), Some(block_height_px)) => Some(
                RawCell { x_px, y_px, block_height_px, text_blob: content.to_owned() },
            ),
            _ => None,
        }
    }
}

/// What a cell decodes to in the grid `grid`, `week_delta` weeks from the
/// week of `anchor`: `GeometryOutOfRange` where the block's day is none of the
/// grid's or its duration is negative or longer than the grid's hours, else
/// `MalformedEventText` where its text has fewer than four lines, else the
/// event.
pub open spec fn decoded_cell(
    grid: GridContainer,
    anchor: int,
    week_delta: int,
    cell: CellModel,
) -> Result<EventModel, ScrapeError> {
    if !day_and_duration_in_range(
        grid.weekday_offset(cell.x_px),
        grid.duration_minutes(cell.block_height_px),
        grid.days(),
    ) {
        Err(ScrapeError::GeometryOutOfRange)
    } else {
        match record_of(cell.text_blob) {
            None => Err(ScrapeError::MalformedEventText),
            Some(record) => Ok(
                event_of(
                    grid.start_seconds(cell.x_px, cell.y_px, week_delta, anchor),
                    grid.duration_minutes(cell.block_height_px),
                    record,
                ),
            ),
        }
    }
}

/// What a block decodes to: what its cell decodes to, or `GeometryOutOfRange`
/// where it gave no cell.
pub open spec fn decoded_block(
    grid: GridContainer,
    anchor: int,
    week_delta: int,
    block: Option<CellModel>,
) -> Result<EventModel, ScrapeError> {
    match block {
        Some(cell) => decoded_cell(grid, anchor, week_delta, cell),
        None => Err(ScrapeError::GeometryOutOfRange),
    }
}

/// Decodes one cell of the week `target`.
pub fn decode_cell(ctx: &RunContext, target: &WeekTarget, cell: &RawCell) -> (decoded: Result<
    PlanningEvent,
    ScrapeError,
>)
    ensures
        match decoded_cell(ctx.grid(), ctx.anchor(), ctx.week_delta(*target), cell@) {
            Ok(model) => decoded matches Ok(event) && event@ == model,
            Err(e) => decoded == Err::<PlanningEvent, ScrapeError>(e),
        },
{
    let grid = ctx.container();
    let placement = grid.place(cell.x_px, cell.y_px, cell.block_height_px);
    if !placement.in_range(grid) {
        return Err(ScrapeError::GeometryOutOfRange);
    }
    let (start, minutes) = decode(
        grid,
        cell.x_px,
        cell.y_px,
        cell.block_height_px,
        ctx.delta_to(target),
        ctx.anchor_monday_7am(),
    );
    match parse(cell.text_blob.as_str()) {
        Err(e) => Err(e),
        Ok(record) => Ok(
            PlanningEvent {
                start,
                duration_s: minutes * 60,
                cours: record.cours,
                prof: record.prof,
                salle: record.salle,
                groups: record.groups,
                notes: record.notes,
            },
        ),
    }
}

/// A cell that was left out, and why.
#[derive(Clone, Copy, Debug, PartialEq, Eq, Structural)]
pub struct SkippedCell {
    /// The position of the cell among the cells of its week, from 0.
    pub index: usize,
    /// `GeometryOutOfRange` or `MalformedEventText`.
    pub reason: ScrapeError,
}

/// What the cells of one week decode to.
#[derive(Clone, Debug, PartialEq, Eq)]
pub struct WeekEvents {
    /// The events of the cells that could be decoded, in the cells' order.
    pub events: Vec<PlanningEvent>,
    /// The cells that could not, in the cells' order.
    pub skipped: Vec<SkippedCell>,
}

/// The events of the blocks that can be decoded, in the blocks' order.
pub open spec fn decoded_events(
    grid: GridContainer,
    anchor: int,
    week_delta: int,
    blocks: Seq<Option<CellModel>>,
) -> Seq<EventModel>
    decreases blocks.len(),
{
    if blocks.len() == 0 {
        Seq::empty()
    } else {
        let before = decoded_events(grid, anchor, week_delta, blocks.drop_last());
        match decoded_block(grid, anchor, week_delta, blocks.last()) {
            Ok(event) => before.push(event),
            Err(_) => before,
        }
    }
}

/// The blocks that cannot be decoded, each with its position and the reason,
/// in the blocks' order.
pub open spec fn skipped_cells(
    grid: GridContainer,
    anchor: int,
    week_delta: int,
    blocks: Seq<Option<CellModel>>,
) -> Seq<SkippedCell>
    decreases blocks.len(),
{
    if blocks.len() == 0 {
        Seq::empty()
    } else {
        let before = skipped_cells(grid, anchor, week_delta, blocks.drop_last());
        match decoded_block(grid, anchor, week_delta, blocks.last()) {
            Ok(_) => before,
            Err(reason) => before.push(
                SkippedCell { index: (blocks.len() - 1) as usize, reason },
            ),
        }
    }
}

/// Decodes the cells of the week `target`: every cell by itself, so that one
/// that fails takes no other with it. No cells give no events, and that is no
/// failure.
pub fn decode_cells(ctx: &RunContext, target: &WeekTarget, cells: &Vec<RawCell>) -> (week:
    WeekEvents)
    ensures
        models(week.events@) == decoded_events(
            ctx.grid(),
            ctx.anchor(),
            ctx.week_delta(*target),
            cells_given(cell_models(cells@)),
        ),
        week.skipped@ == skipped_cells(
            ctx.grid(),
            ctx.anchor(),
            ctx.week_delta(*target),
            cells_given(cell_models(cells@)),
        ),
{
    let mut week = WeekEvents { events: Vec::new(), skipped: Vec::new() };
    let ghost all = cells_given(cell_models(cells@));
    let mut i: usize = 0;
    assert(models(week.events@) =~= Seq::<EventModel>::empty());
    while i < cells.len()
        invariant
            i <= cells.len(),
            all == cells_given(cell_models(cells@)),
            holds_week(week, ctx, target, all.take(i as int)),
        decreases cells.len() - i,
    {
        let decoded = decode_cell(ctx, target, &cells[i]);
        note(&mut week, ctx, target, Ghost(all), i, decoded);
        i += 1;
    }
    assert(all.take(cells.len() as int) =~= all);
    week
}

/// Reads and decodes the blocks of the week `target`: every block by itself.
/// A block whose attributes cannot be read is skipped with
/// `GeometryOutOfRange`, like one whose day or duration is out of range.
pub fn decode_blocks(ctx: &RunContext, target: &WeekTarget, blocks: &Vec<BlockMarkup>) -> (week:
    WeekEvents)
    ensures
        models(week.events@) == decoded_events(
            ctx.grid(),
            ctx.anchor(),
            ctx.week_delta(*target),
            cells_read(block_models(blocks@)),
        ),
        week.skipped@ == skipped_cells(
            ctx.grid(),
            ctx.anchor(),
            ctx.week_delta(*target),
            cells_read(block_models(blocks@)),
        ),
{
    let mut week = WeekEvents { events: Vec::new(), skipped: Vec::new() };
    let ghost all = cells_read(block_models(blocks@));
    let mut i: usize = 0;
    assert(models(week.events@) =~= Seq::<EventModel>::empty());
    while i < blocks.len()
        invariant
            i <= blocks.len(),
            all == cells_read(block_models(blocks@)),
            holds_week(week, ctx, target, all.take(i as int)),
        decreases blocks.len() - i,
    {
        let block = &blocks[i];
        let decoded = match RawCell::from_markup(
            block.block_style.as_str(),
            block.table_style.as_str(),
            block.content.as_str(),
        ) {
            Some(cell) => decode_cell(ctx, target, &cell),
            None => Err(ScrapeError::GeometryOutOfRange),
        };
        note(&mut week, ctx, target, Ghost(all), i, decoded);
        i += 1;
    }
    assert(all.take(blocks.len() as int) =~= all);
    week
}

/// `week` holds what `blocks` decode to.
spec fn holds_week(
    week: WeekEvents,
    ctx: &RunContext,
    target: &WeekTarget,
    blocks: Seq<Option<CellModel>>,
) -> bool {
    &&& models(week.events@) == decoded_events(
        ctx.grid(),
        ctx.anchor(),
        ctx.week_delta(*target),
        blocks,
    )
    &&& week.skipped@ == skipped_cells(ctx.grid(), ctx.anchor(), ctx.week_delta(*target), blocks)
}

/// Adds what the block at position `i` decoded to: its event, or a note that
/// it was skipped.
fn note(
    week: &mut WeekEvents,
    ctx: &RunContext,
    target: &WeekTarget,
    Ghost(all): Ghost<Seq<Option<CellModel>>>,
    i: usize,
    decoded: Result<PlanningEvent, ScrapeError>,
)
    requires
        i < all.len(),
        holds_week(*old(week), ctx, target, all.take(i as int)),
        match decoded_block(ctx.grid(), ctx.anchor(), ctx.week_delta(*target), all[i as int]) {
            Ok(model) => decoded matches Ok(event) && event@ == model,
            Err(e) => decoded == Err::<PlanningEvent, ScrapeError>(e),
        },
    ensures
        holds_week(*final(week), ctx, target, all.take(i + 1)),
{
    assert(all.take(i + 1).drop_last() =~= all.take(i as int));
    let ghost before = models(week.events@);
    match decoded {
        Ok(event) => {
            week.events.push(event);
            assert(models(week.events@) =~= before.push(event@));
        },
        Err(reason) => {
            week.skipped.push(SkippedCell { index: i, reason });
        },
    }
}

/// What stops a block stops that block only: its failure is one of the two
/// that concern a single block, never one that ends a week or a run.
pub proof fn lemma_cell_failures_stay_with_the_cell(
    grid: GridContainer,
    anchor: int,
    week_delta: int,
    block: Option<CellModel>,
)
    ensures
        decoded_block(grid, anchor, week_delta, block) matches Err(e) ==> e.is_per_cell()
            && !e.is_fatal(),
{
}

/// A week without blocks has no events and no skipped cells.
pub proof fn lemma_no_cells_no_events(grid: GridContainer, anchor: int, week_delta: int)
    ensures
        decoded_events(grid, anchor, week_delta, Seq::empty()) == Seq::<EventModel>::empty(),
        skipped_cells(grid, anchor, week_delta, Seq::empty()) == Seq::<SkippedCell>::empty(),
{
}

/// The events of two runs of blocks, one after the other, are the events of
/// the first followed by the events of the second: no block has a part in
/// what another decodes to.
pub proof fn lemma_decoded_events_concat(
    grid: GridContainer,
    anchor: int,
    week_delta: int,
    first: Seq<Option<CellModel>>,
    second: Seq<Option<CellModel>>,
)
    ensures
        decoded_events(grid, anchor, week_delta, first + second) == decoded_events(
            grid,
            anchor,
            week_delta,
            first,
        ) + decoded_events(grid, anchor, week_delta, second),
    decreases second.len(),
{
    if second.len() > 0 {
        lemma_decoded_events_concat(grid, anchor, week_delta, first, second.drop_last());
        assert((first + second).drop_last() =~= first + second.drop_last());
    }
}

/// A cell whose text has fewer than four lines is skipped, and the blocks
/// around it decode as they do without it.
pub proof fn lemma_malformed_text_is_isolated(
    grid: GridContainer,
    anchor: int,
    week_delta: int,
    before: Seq<Option<CellModel>>,
    bad: CellModel,
    after: Seq<Option<CellModel>>,
)
    requires
        record_of(bad.text_blob) is None,
    ensures
        decoded_cell(grid, anchor, week_delta, bad) is Err,
        decoded_events(grid, anchor, week_delta, before + seq![Some(bad)] + after)
            == decoded_events(grid, anchor, week_delta, before) + decoded_events(
            grid,
            anchor,
            week_delta,
            after,
        ),
{
    lemma_skipped_block_is_isolated(grid, anchor, week_delta, before, Some(bad), after);
}

/// A block that cannot be decoded, for whatever reason, leaves the events of
/// the blocks around it as they are without it.
pub proof fn lemma_skipped_block_is_isolated(
    grid: GridContainer,
    anchor: int,
    week_delta: int,
    before: Seq<Option<CellModel>>,
    bad: Option<CellModel>,
    after: Seq<Option<CellModel>>,
)
    requires
        decoded_block(grid, anchor, week_delta, bad) is Err,
    ensures
        decoded_events(grid, anchor, week_delta, before + seq![bad] + after) == decoded_events(
            grid,
            anchor,
            week_delta,
            before + after,
        ),
        decoded_events(grid, anchor, week_delta, before + after) == decoded_events(
            grid,
            anchor,
            week_delta,
            before,
        ) + decoded_events(grid, anchor, week_delta, after),
{
    let one = seq![bad];
    assert(decoded_events(grid, anchor, week_delta, one.drop_last()) =~= Seq::<
        EventModel,
    >::empty());
    lemma_decoded_events_concat(grid, anchor, week_delta, before, one);
    lemma_decoded_events_concat(grid, anchor, week_delta, before + one, after);
    lemma_decoded_events_concat(grid, anchor, week_delta, before, after);
}

/// Every block that can be decoded has its event among the events of its
/// week.
pub proof fn lemma_decodable_block_is_kept(
    grid: GridContainer,
    anchor: int,
    week_delta: int,
    blocks: Seq<Option<CellModel>>,
    i: int,
)
    requires
        0 <= i < blocks.len(),
        decoded_block(grid, anchor, week_delta, blocks[i]) is Ok,
    ensures
        decoded_events(grid, anchor, week_delta, blocks).contains(
            decoded_block(grid, anchor, week_delta, blocks[i])->Ok_0,
        ),
    decreases blocks.len(),
{
    let rest = decoded_events(grid, anchor, week_delta, blocks.drop_last());
    let event = decoded_block(grid, anchor, week_delta, blocks[i])->Ok_0;
    if i == blocks.len() - 1 {
        assert(rest.push(event)[rest.len() as int] == event);
    } else {
        lemma_decodable_block_is_kept(grid, anchor, week_delta, blocks.drop_last(), i);
        let k = choose|k: int| 0 <= k < rest.len() && rest[k] == event;
        if let Ok(last) = decoded_block(grid, anchor, week_delta, blocks.last()) {
            assert(rest.push(last)[k] == event);
        }
    }
}

} // verus!
