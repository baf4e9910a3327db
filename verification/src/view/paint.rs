//! Painting on a terminal buffer.
use ratatui::buffer::Buffer;
use ratatui::style::{Color, Style};
use ratatui::widgets::{Paragraph, Widget};
use vstd::prelude::*;

verus! {

/// A grid of terminal cells.
#[verifier::external_type_specification]
#[verifier::external_body]
pub struct ExBuffer(ratatui::buffer::Buffer);

/// A terminal colour.
#[verifier::external_type_specification]
#[verifier::external_body]
pub struct ExColor(ratatui::style::Color);

/// What a buffer holds: for each position that `Buffer::cell` finds a cell at,
/// column first, the cell's symbol, foreground, background, and the bits of its
/// modifiers. How a cell is compared when two buffers are told apart, which a cell
/// also holds, is not named.
pub uninterp spec fn buffer_cells(buf: ratatui::buffer::Buffer) -> Map<
    (u16, u16),
    (Seq<char>, ratatui::style::Color, ratatui::style::Color, u16),
>;

/// `Buffer::cell`: whether the buffer has a cell at a position. It has none
/// outside its area.
#[verifier::external_body]
fn has_cell(buf: &Buffer, x: u16, y: u16) -> (found: bool)
    ensures
        found == buffer_cells(*buf).dom().contains((x, y)),
{
    buf.cell((x, y)).is_some()
}

/// `Paragraph::render` of a single space on a background, in the area of one
/// cell. The cell then shows a space on that background; its foreground, its
/// modifiers and all other cells stay as they were.
#[verifier::external_body]
fn render_space(buf: &mut Buffer, x: u16, y: u16, color: Color)
    requires
        buffer_cells(*old(buf)).dom().contains((x, y)),
    ensures
        buffer_cells(*final(buf)) == buffer_cells(*old(buf)).insert(
            (x, y),
            (
                seq![' '],
                buffer_cells(*old(buf))[(x, y)].1,
                color,
                buffer_cells(*old(buf))[(x, y)].3,
            ),
        ),
{
    let area = ratatui::layout::Rect::new(x, y, 1, 1);
    let style = Style::default().bg(color);
    Paragraph::new(" ").style(style).render(area, buf);
}

/// A rectangle of cells.
#[derive(Clone, Copy, Debug, PartialEq, Eq)]
pub struct Rect {
    pub x: u16,
    pub y: u16,
    pub width: u16,
    pub height: u16,
}

/// The colours that scrollbars are painted in.
#[derive(Clone, Copy, Debug)]
pub struct Theme {
    pub scrollbar_track_fg: Color,
    pub scrollbar_thumb_fg: Color,
}

/// Whether a scrollbar runs down or across.
#[derive(Clone, Copy, Debug, PartialEq, Eq, Structural)]
pub enum Direction {
    Vertical,
    Horizontal,
}

/// The position of a scrollbar's cell `i`.
pub open spec fn bar_position(direction: Direction, x: u16, y: u16, i: int) -> (int, int) {
    match direction {
        Direction::Vertical => (x as int, y + i),
        Direction::Horizontal => (x + i, y as int),
    }
}

/// How far along a scrollbar a position lies, if it lies on the line that the
/// scrollbar runs on.
pub open spec fn along_bar(direction: Direction, x: u16, y: u16, at: (u16, u16)) -> Option<int> {
    match direction {
        Direction::Vertical => if at.0 == x {
            Some(at.1 - y)
        } else {
            None
        },
        Direction::Horizontal => if at.1 == y {
            Some(at.0 - x)
        } else {
            None
        },
    }
}

/// The cells after the first `len` cells of a scrollbar at `x` and `y` were
/// painted: those from `start` up to `end` in the colour of the thumb, the others
/// in the colour of the track. Positions that the buffer has no cell at are
/// passed over.
pub open spec fn painted_bar(
    cells: Map<(u16, u16), (Seq<char>, Color, Color, u16)>,
    direction: Direction,
    x: u16,
    y: u16,
    len: int,
    start: int,
    end: int,
    theme: Theme,
) -> Map<(u16, u16), (Seq<char>, Color, Color, u16)> {
    Map::new(
        |at: (u16, u16)| cells.dom().contains(at),
        |at: (u16, u16)|
            match along_bar(direction, x, y, at) {
                Some(i) if 0 <= i < len => (
                    seq![' '],
                    cells[at].1,
                    if start <= i < end {
                        theme.scrollbar_thumb_fg
                    } else {
                        theme.scrollbar_track_fg
                    },
                    cells[at].3,
                ),
                _ => cells[at],
            },
    )
}

/// Paints the `len` cells of a scrollbar at `x` and `y`.
pub(crate) fn paint_bar(
    buf: &mut Buffer,
    direction: Direction,
    x: u16,
    y: u16,
    len: u16,
    start: usize,
    end: usize,
    theme: &Theme,
)
    requires
        match direction {
            Direction::Vertical => y + len <= u16::MAX + 1,
            Direction::Horizontal => x + len <= u16::MAX + 1,
        },
    ensures
        buffer_cells(*final(buf)) == painted_bar(
            buffer_cells(*old(buf)),
            direction,
            x,
            y,
            len as int,
            start as int,
            end as int,
            *theme,
        ),
{
    let ghost before = buffer_cells(*buf);
    let mut i: u16 = 0;
    assert(before =~= painted_bar(before, direction, x, y, 0, start as int, end as int, *theme));
    while i < len
        invariant
            i <= len,
            match direction {
                Direction::Vertical => y + len <= u16::MAX + 1,
                Direction::Horizontal => x + len <= u16::MAX + 1,
            },
            buffer_cells(*buf) == painted_bar(
                before,
                direction,
                x,
                y,
                i as int,
                start as int,
                end as int,
                *theme,
            ),
        decreases len - i,
    {
        let (cell_x, cell_y) = match direction {
            Direction::Vertical => (x, y + i),
            Direction::Horizontal => (x + i, y),
        };
        if has_cell(buf, cell_x, cell_y) {
            let on_thumb = i as usize >= start && (i as usize) < end;
            let color = if on_thumb {
                theme.scrollbar_thumb_fg
            } else {
                theme.scrollbar_track_fg
            };
            render_space(buf, cell_x, cell_y, color);
        }
        assert(buffer_cells(*buf) =~= painted_bar(
            before,
            direction,
            x,
            y,
            i + 1,
            start as int,
            end as int,
            *theme,
        ));
        i = i + 1;
    }
}

/// Painting a scrollbar changes no cell that is not on it, adds none and takes
/// none away.
pub proof fn law_painting_stays_on_the_bar(
    cells: Map<(u16, u16), (Seq<char>, Color, Color, u16)>,
    direction: Direction,
    x: u16,
    y: u16,
    len: int,
    start: int,
    end: int,
    theme: Theme,
    at: (u16, u16),
)
    requires
        forall|i: int|
            0 <= i < len ==> #[trigger] bar_position(direction, x, y, i) != (
                at.0 as int,
                at.1 as int,
            ),
    ensures
        ({
            let after = painted_bar(cells, direction, x, y, len, start, end, theme);
            &&& after.dom() == cells.dom()
            &&& cells.dom().contains(at) ==> after[at] == cells[at]
        }),
{
    let after = painted_bar(cells, direction, x, y, len, start, end, theme);
    assert(after.dom() =~= cells.dom());
    match along_bar(direction, x, y, at) {
        Some(i) => {
            assert(bar_position(direction, x, y, i) == (at.0 as int, at.1 as int));
        },
        None => {},
    }
}

/// The thumb that is seen is the thumb that the mouse hits: cell `i` of a painted
/// scrollbar has the colour of the thumb exactly from `start` up to `end`.
pub proof fn law_thumb_is_seen_where_it_is_hit(
    cells: Map<(u16, u16), (Seq<char>, Color, Color, u16)>,
    direction: Direction,
    x: u16,
    y: u16,
    len: int,
    start: int,
    end: int,
    theme: Theme,
    at: (u16, u16),
    i: int,
)
    requires
        theme.scrollbar_track_fg != theme.scrollbar_thumb_fg,
        0 <= i < len,
        bar_position(direction, x, y, i) == (at.0 as int, at.1 as int),
        cells.dom().contains(at),
    ensures
        ({
            let after = painted_bar(cells, direction, x, y, len, start, end, theme);
            after[at].2 == theme.scrollbar_thumb_fg <==> start <= i < end
        }),
{
}

} // verus!
