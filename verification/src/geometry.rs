//! Rectangles of terminal cells, and how the screens divide them.
use ratatui::layout::{Constraint as CellConstraint, Layout, Rect as CellRect};
use ratatui::widgets::{Block, Borders as CellBorders, Padding as CellPadding, Paragraph, Wrap};
use vstd::prelude::*;
use vstd::string::*;

verus! {

/// A rectangle of terminal cells.
#[derive(Clone, Copy, Debug, PartialEq, Eq, Structural)]
pub struct Rect {
    pub x: u16,
    pub y: u16,
    pub width: u16,
    pub height: u16,
}

impl Rect {
    /// Whether every cell of the rectangle has coordinates that the terminal can address.
    pub open spec fn fits(self) -> bool {
        &&& self.x + self.width <= u16::MAX
        &&& self.y + self.height <= u16::MAX
    }

    /// Whether every cell of the rectangle lies in `outer`.
    pub open spec fn inside(self, outer: Rect) -> bool {
        &&& outer.x <= self.x
        &&& outer.y <= self.y
        &&& self.x + self.width <= outer.x + outer.width
        &&& self.y + self.height <= outer.y + outer.height
    }
}

/// The direction in which an area is divided.
#[derive(Clone, Copy, Debug, PartialEq, Eq, Structural)]
pub enum Axis {
    /// Into columns.
    Horizontal,
    /// Into rows.
    Vertical,
}

/// How large one part of a divided area should be.
#[derive(Clone, Copy, Debug, PartialEq, Eq, Structural)]
pub enum Extent {
    Length(u16),
    Min(u16),
    Percentage(u16),
    Ratio(u32, u32),
}

/// The sides on which a panel has a line.
#[derive(Clone, Copy, Debug, PartialEq, Eq, Structural)]
pub enum Borders {
    Left,
    All,
}

/// The empty cells between a panel's border and its content.
#[derive(Clone, Copy, Debug, PartialEq, Eq, Structural)]
pub struct Padding {
    pub left: u16,
    pub right: u16,
    pub top: u16,
    pub bottom: u16,
}

/// The smaller of two numbers.
pub open spec fn least(a: int, b: int) -> int {
    if a <= b {
        a
    } else {
        b
    }
}

/// The larger of two numbers.
pub open spec fn most(a: int, b: int) -> int {
    if a >= b {
        a
    } else {
        b
    }
}

/// `a - b`, or 0 where that is negative.
pub open spec fn minus(a: int, b: int) -> int {
    most(a - b, 0)
}

/// The index of the first of `slots` neighbouring stations that are shown round the selected one.
pub open spec fn window_start(selected: int, total: int, slots: int) -> int {
    least(minus(selected, slots / 2), total - slots)
}

/// The indices of the stations that are shown: all of them if there are places enough, else a run
/// of `slots` of them with the selected one as near its middle as the ends of the list allow.
pub open spec fn window(selected: int, total: int, slots: int) -> Seq<usize> {
    if total <= slots {
        Seq::new(total as nat, |i: int| i as usize)
    } else {
        Seq::new(slots as nat, |i: int| (window_start(selected, total, slots) + i) as usize)
    }
}

/// `area` without a margin of `margin` cells on each side, or nothing where it is too small.
pub open spec fn inset(area: Rect, margin: u16) -> Rect {
    let twice = least(2 * margin, u16::MAX as int);
    if area.width < twice || area.height < twice {
        Rect { x: 0, y: 0, width: 0, height: 0 }
    } else {
        Rect {
            x: least(area.x + margin, u16::MAX as int) as u16,
            y: least(area.y + margin, u16::MAX as int) as u16,
            width: (area.width - twice) as u16,
            height: (area.height - twice) as u16,
        }
    }
}

/// Whether `parts` is a division of `area` that ratatui's `Layout::split` may give. Its solver
/// visits its equations in an order that differs from process to process.
pub uninterp spec fn layout_outcome(
    area: Rect,
    axis: Axis,
    margin: u16,
    extents: Seq<Extent>,
    parts: Seq<Rect>,
) -> bool;

/// The first cell of `area` along `axis`.
pub open spec fn first_cell(area: Rect, axis: Axis) -> int {
    match axis {
        Axis::Horizontal => area.x as int,
        Axis::Vertical => area.y as int,
    }
}

/// How many cells of `area` there are along `axis`.
pub open spec fn cells(area: Rect, axis: Axis) -> int {
    match axis {
        Axis::Horizontal => area.width as int,
        Axis::Vertical => area.height as int,
    }
}

/// How many cells of `area` along `axis` the terminal can address.
pub open spec fn reach(area: Rect, axis: Axis) -> int {
    least(first_cell(area, axis) + cells(area, axis), u16::MAX as int) - first_cell(area, axis)
}

/// Whether `part` lies in `area`: across the axis it is as large as the area, along it it does not
/// reach past it.
pub open spec fn is_part(area: Rect, axis: Axis, part: Rect) -> bool {
    &&& match axis {
        Axis::Horizontal => part.y == area.y && part.height == area.height,
        Axis::Vertical => part.x == area.x && part.width == area.width,
    }
    &&& first_cell(area, axis) <= first_cell(part, axis)
    &&& first_cell(part, axis) + cells(part, axis) <= first_cell(area, axis) + reach(area, axis)
}

/// The cells that the fixed lengths among `extents` ask for.
pub open spec fn fixed_cells(extents: Seq<Extent>) -> int
    decreases extents.len(),
{
    if extents.len() == 0 {
        0
    } else {
        fixed_cells(extents.drop_last()) + match extents.last() {
            Extent::Length(n) => n as int,
            _ => 0,
        }
    }
}

/// Whether the extent at `k` is the only one that is no fixed length, and asks for a least size.
pub open spec fn is_lone_min(extents: Seq<Extent>, k: int) -> bool {
    &&& extents[k] matches Extent::Min(n) && n <= i16::MAX
    &&& forall|i: int|
        0 <= i < extents.len() && i != k ==> (#[trigger] extents[i]) is Length
}

/// What the only part without a fixed length gets: its least size comes before the fixed lengths,
/// and where there is room for all of them it takes what they leave, and the parts lie one after
/// the other.
pub open spec fn lone_min_served(
    area: Rect,
    axis: Axis,
    extents: Seq<Extent>,
    parts: Seq<Rect>,
    k: int,
) -> bool {
    let least_size = extents[k]->Min_0 as int;
    &&& cells(parts[k], axis) >= least(least_size, reach(area, axis))
    &&& fixed_cells(extents) + least_size <= reach(area, axis) ==> {
        &&& cells(parts[k], axis) == reach(area, axis) - fixed_cells(extents)
        &&& forall|i: int|
            #![trigger parts[i]]
            0 <= i < parts.len() && i != k ==> cells(parts[i], axis) == extents[i]->Length_0
        &&& first_cell(parts[0], axis) == first_cell(area, axis)
        &&& forall|i: int, j: int|
            #![trigger parts[i], parts[j]]
            0 <= i && j == i + 1 && j < parts.len() ==> first_cell(parts[j], axis) == first_cell(
                parts[i],
                axis,
            ) + cells(parts[i], axis)
    }
}

/// Whether `parts` is a division of `area`, less its margin, along `axis`: one part for each
/// extent.
pub open spec fn is_split(
    area: Rect,
    axis: Axis,
    margin: u16,
    extents: Seq<Extent>,
    parts: Seq<Rect>,
) -> bool {
    let inner = inset(area, margin);
    &&& layout_outcome(area, axis, margin, extents, parts)
    &&& parts.len() == extents.len()
    &&& forall|i: int|
        #![trigger parts[i]]
        0 <= i < parts.len() ==> {
            &&& is_part(inner, axis, parts[i])
            &&& is_lone_min(extents, i) ==> lone_min_served(inner, axis, extents, parts, i)
        }
}

/// The part of `area` that a panel leaves to its content.
pub open spec fn content_of(area: Rect, borders: Borders, padding: Padding) -> Rect {
    let top: int = if borders == Borders::All { 1 } else { 0 };
    let right: int = if borders == Borders::All { 1 } else { 0 };
    let line_x = least(least(area.x + 1, area.x + area.width), u16::MAX as int);
    let line_y = if borders == Borders::All {
        least(least(area.y + 1, area.y + area.height), u16::MAX as int)
    } else {
        area.y as int
    };
    let across = least(padding.left + padding.right, u16::MAX as int);
    let down = least(padding.top + padding.bottom, u16::MAX as int);
    Rect {
        x: least(line_x + padding.left, u16::MAX as int) as u16,
        y: least(line_y + padding.top, u16::MAX as int) as u16,
        width: minus(area.width - 1 - right, across) as u16,
        height: minus(area.height - 2 * top, down) as u16,
    }
}

/// How many lines `text` takes when ratatui's `Paragraph` wraps it, trimmed, to `width` cells.
pub uninterp spec fn wrapped_lines(text: Seq<char>, width: u16) -> usize;

/// How many columns, and how many characters, ratatui can always count.
pub const COUNTABLE: u16 = 16_384;

/// The width at which a text is counted: that of its area, which for a text too long to be counted
/// at any width is cut to what can always be counted.
pub open spec fn counted_width(text: Seq<char>, width: u16) -> u16 {
    if text.len() <= COUNTABLE {
        width
    } else {
        least(width as int, COUNTABLE as int) as u16
    }
}

/// How many lines `text` takes when it is wrapped to `width` columns.
pub open spec fn lines_of(text: Seq<char>, width: u16) -> usize {
    wrapped_lines(text, counted_width(text, width))
}

/// `ratatui::layout::Layout::split`: one rectangle for each extent, each within the area less its
/// margin. A least size is served before fixed lengths, and fixed lengths before the wish of a
/// part to fill what is left; so where one part has a least size and the others fixed lengths, it
/// gets its least size as far as there is room, and all that the others leave where there is room
/// for all, one part after the other without gaps. What the solver makes of other extents is left
/// open.
#[verifier::external_body]
pub(crate) fn split(area: Rect, axis: Axis, margin: u16, extents: &Vec<Extent>) -> (r: Vec<Rect>)
    ensures
        layout_outcome(area, axis, margin, extents@, r@),
        is_split(area, axis, margin, extents@, r@),
{
    let constraints = extents.iter().map(|extent| match extent {
        Extent::Length(n) => CellConstraint::Length(*n),
        Extent::Min(n) => CellConstraint::Min(*n),
        Extent::Percentage(n) => CellConstraint::Percentage(*n),
        Extent::Ratio(a, b) => CellConstraint::Ratio(*a, *b),
    });
    let layout = match axis {
        Axis::Horizontal => Layout::horizontal(constraints),
        Axis::Vertical => Layout::vertical(constraints),
    };
    let Rect { x, y, width, height } = area;
    let parts = layout.margin(margin).split(CellRect { x, y, width, height });
    parts.iter().map(|c| Rect { x: c.x, y: c.y, width: c.width, height: c.height }).collect()
}

/// `ratatui::widgets::Block::inner`: the area within a block's lines and padding.
#[verifier::external_body]
pub(crate) fn content_area(area: Rect, borders: Borders, padding: Padding) -> (r: Rect)
    ensures
        r == content_of(area, borders, padding),
{
    let lines = match borders {
        Borders::Left => CellBorders::LEFT,
        Borders::All => CellBorders::ALL,
    };
    let space = CellPadding::new(padding.left, padding.right, padding.top, padding.bottom);
    let block = Block::default().borders(lines).padding(space);
    let Rect { x, y, width, height } = area;
    let inner = block.inner(CellRect { x, y, width, height });
    Rect { x: inner.x, y: inner.y, width: inner.width, height: inner.height }
}

/// `ratatui::widgets::Paragraph::line_count` of a trimmed, wrapped paragraph: a function of the
/// text and the width. It adds up, in a `u16`, the widths of a line, of the blanks and the word
/// after it and of the next cluster of characters. None of these sums can be as large as four times
/// the width, nor larger than three times the number of characters.
#[verifier::external_body]
pub(crate) fn line_count(text: &str, width: u16) -> (r: usize)
    requires
        width <= COUNTABLE || text@.len() <= COUNTABLE,
    ensures
        r == wrapped_lines(text@, width),
{
    Paragraph::new(text).wrap(Wrap { trim: true }).line_count(width)
}

/// How many lines `text` takes when it is wrapped to `width` columns.
pub fn lines_in(text: &str, width: u16) -> (r: usize)
    ensures
        r == lines_of(text@, width),
{
    if text.unicode_len() <= COUNTABLE as usize {
        line_count(text, width)
    } else {
        line_count(text, min_u16(width, COUNTABLE))
    }
}

/// The smaller of two sizes.
pub fn min_u16(a: u16, b: u16) -> (r: u16)
    ensures
        r == least(a as int, b as int),
{
    if a <= b {
        a
    } else {
        b
    }
}

/// The larger of two sizes.
pub fn max_u16(a: u16, b: u16) -> (r: u16)
    ensures
        r == most(a as int, b as int),
{
    if a >= b {
        a
    } else {
        b
    }
}

/// The smaller of two counts.
pub fn min_usize(a: usize, b: usize) -> (r: usize)
    ensures
        r == least(a as int, b as int),
{
    if a <= b {
        a
    } else {
        b
    }
}

/// `start`, `start + 1` and so on, `count` of them.
fn run_of(start: usize, count: usize) -> (r: Vec<usize>)
    requires
        start + count <= usize::MAX,
    ensures
        r@ == Seq::new(count as nat, |i: int| (start + i) as usize),
{
    let mut r: Vec<usize> = Vec::new();
    for i in 0..count
        invariant
            start + count <= usize::MAX,
            r@ =~= Seq::new(i as nat, |i: int| (start + i) as usize),
    {
        r.push(start + i);
    }
    r
}

/// The indices of the stations that are shown beside the selected one.
pub fn visible_channels(selected: usize, total: usize, slots: usize) -> (r: Vec<usize>)
    ensures
        r@ == window(selected as int, total as int, slots as int),
{
    if total <= slots {
        let r = run_of(0, total);
        assert(r@ =~= window(selected as int, total as int, slots as int));
        return r;
    }
    let start = min_usize(selected.saturating_sub(slots / 2), total - slots);
    let r = run_of(start, slots);
    assert(r@ =~= window(selected as int, total as int, slots as int));
    r
}

/// The rectangle of `centered_rect`.
pub open spec fn centered(area: Rect, preferred_width: u16, preferred_height: u16) -> Rect {
    let width = least(preferred_width as int, minus(area.width as int, 2));
    let height = least(preferred_height as int, minus(area.height as int, 2));
    Rect {
        x: (area.x + (area.width - width) / 2) as u16,
        y: (area.y + (area.height - height) / 2) as u16,
        width: width as u16,
        height: height as u16,
    }
}

/// A rectangle of the preferred size in the middle of `area`, smaller where `area` has no room
/// for it and for a cell on each side of it.
pub fn centered_rect(area: Rect, preferred_width: u16, preferred_height: u16) -> (r: Rect)
    requires
        area.x + (area.width - centered(area, preferred_width, preferred_height).width) / 2
            <= u16::MAX,
        area.y + (area.height - centered(area, preferred_width, preferred_height).height) / 2
            <= u16::MAX,
    ensures
        r == centered(area, preferred_width, preferred_height),
{
    let width = min_u16(preferred_width, area.width.saturating_sub(2));
    let height = min_u16(preferred_height, area.height.saturating_sub(2));
    Rect {
        x: area.x + area.width.saturating_sub(width) / 2,
        y: area.y + area.height.saturating_sub(height) / 2,
        width,
        height,
    }
}

/// The rectangle of `vcentered`.
pub open spec fn vertically_centered(area: Rect, height: u16) -> Rect {
    let rows = least(height as int, area.height as int);
    Rect { y: (area.y + (area.height - rows) / 2) as u16, height: rows as u16, ..area }
}

/// Shrinks `area` to `height` rows in the middle of its rows.
pub fn vcentered(area: Rect, height: u16) -> (r: Rect)
    requires
        area.y + (area.height - least(height as int, area.height as int)) / 2 <= u16::MAX,
    ensures
        r == vertically_centered(area, height),
{
    let height = min_u16(height, area.height);
    Rect {
        x: area.x,
        y: area.y + area.height.saturating_sub(height) / 2,
        width: area.width,
        height,
    }
}

/// The selected station is always among those shown, and they are neighbours: the row of a
/// station that exists never scrolls out of view.
pub proof fn law_window_holds_the_selection(selected: int, total: int, slots: int)
    requires
        0 <= selected < total <= usize::MAX,
        0 < slots,
    ensures
        window(selected, total, slots).contains(selected as usize),
        window(selected, total, slots).len() == least(total, slots),
        forall|i: int|
            0 <= i < window(selected, total, slots).len() ==> {
                &&& (#[trigger] window(selected, total, slots)[i]) < total
                &&& window(selected, total, slots)[i] == window(selected, total, slots)[0] + i
            },
{
    let w = window(selected, total, slots);
    if total <= slots {
        assert(w[selected] == selected as usize);
    } else {
        let start = window_start(selected, total, slots);
        assert(w[selected - start] == selected as usize);
    }
}

/// A centred rectangle lies in the area that it is centred in, and leaves a cell free on each
/// side of it where the area has that room.
pub proof fn law_centered_lies_inside(area: Rect, preferred_width: u16, preferred_height: u16)
    requires
        area.fits(),
    ensures
        centered(area, preferred_width, preferred_height).inside(area),
        area.width >= 2 ==> {
            &&& area.x < centered(area, preferred_width, preferred_height).x
            &&& centered(area, preferred_width, preferred_height).x + centered(
                area,
                preferred_width,
                preferred_height,
            ).width < area.x + area.width
        },
        area.height >= 2 ==> {
            &&& area.y < centered(area, preferred_width, preferred_height).y
            &&& centered(area, preferred_width, preferred_height).y + centered(
                area,
                preferred_width,
                preferred_height,
            ).height < area.y + area.height
        },
{
}

/// Rows that were centred in an area lie in it.
pub proof fn law_vertically_centered_lies_inside(area: Rect, height: u16)
    requires
        area.fits(),
    ensures
        vertically_centered(area, height).inside(area),
{
}

/// A panel's content lies in the panel where the panel has room for its lines and padding.
pub proof fn law_content_lies_inside(area: Rect, borders: Borders, padding: Padding)
    requires
        area.fits(),
        area.width >= 2 + padding.left + padding.right,
        area.height >= 2 + padding.top + padding.bottom,
    ensures
        content_of(area, borders, padding).inside(area),
{
}

/// What is centred has its preferred size, or as much of it as leaves a cell on each side; and as
/// much room on its left as on its right, and above it as below it, but for one cell.
pub proof fn law_what_is_centred_is_in_the_middle(
    area: Rect,
    preferred_width: u16,
    preferred_height: u16,
    r: Rect,
)
    requires
        call_ensures(centered_rect, (area, preferred_width, preferred_height), r),
        area.fits(),
        area.width >= 2,
        area.height >= 2,
    ensures
        r.width == (if preferred_width <= area.width - 2 {
            preferred_width as int
        } else {
            area.width - 2
        }),
        r.height == (if preferred_height <= area.height - 2 {
            preferred_height as int
        } else {
            area.height - 2
        }),
        ({
            let left = r.x - area.x;
            let right = area.x + area.width - r.x - r.width;
            left <= right <= left + 1
        }),
        ({
            let above = r.y - area.y;
            let below = area.y + area.height - r.y - r.height;
            above <= below <= above + 1
        }),
{
}

/// The same of rows alone.
pub proof fn law_rows_are_in_the_middle(area: Rect, height: u16, r: Rect)
    requires
        call_ensures(vcentered, (area, height), r),
        area.fits(),
    ensures
        r.x == area.x,
        r.width == area.width,
        r.height == (if height <= area.height {
            height
        } else {
            area.height
        }),
        ({
            let above = r.y - area.y;
            let below = area.y + area.height - r.y - r.height;
            above <= below <= above + 1
        }),
{
}

/// The stations that are shown are neighbours, as many as have room, and the selected one is among
/// them: as many before it as after it, but for one, where the list has them.
pub proof fn law_the_selection_is_in_view(selected: usize, total: usize, slots: usize, r: Vec<usize>)
    requires
        call_ensures(visible_channels, (selected, total, slots), r),
        selected < total,
        slots > 0,
    ensures
        r@.contains(selected),
        r@.len() == (if total <= slots {
            total
        } else {
            slots
        }),
        forall|i: int| 0 <= i < r@.len() ==> (#[trigger] r@[i]) < total && r@[i] == r@[0] + i,
        r@[0] > 0 && r@.last() < total - 1 ==> {
            let before = selected - r@[0];
            let after = r@.last() - selected;
            after <= before <= after + 1
        },
{
    law_window_holds_the_selection(selected as int, total as int, slots as int);
}

/// A text takes the lines that it is wrapped to at its own width, but where both are very large.
pub proof fn law_a_text_has_its_lines(text: &str, width: u16, r: usize)
    requires
        call_ensures(lines_in, (text, width), r),
        text@.len() <= 16_384 || width <= 16_384,
    ensures
        r == wrapped_lines(text@, width),
{
}

} // verus!
