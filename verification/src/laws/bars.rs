//! Scrollbars on the screen.
use ratatui::buffer::Buffer;
use ratatui::style::Color;
use vstd::prelude::*;

use crate::view::buffer::TextBuffer;
use crate::view::paint::{buffer_cells, Rect, Theme};
use crate::view::scrollbar::{EditorState, HorizontalScrollMetrics, Viewport};
use crate::view::thumb::{
    composite_size_ratio, composite_start_ratio, horizontal_size_ratio, horizontal_start_ratio,
    render_composite_scrollbar, render_horizontal_scrollbar, render_scrollbar,
    scrollbar_size_ratio, scrollbar_start_ratio, Proportions, Ratio,
};

verus! {

/// Whether `n` is the smaller of `a` and `b`.
pub open spec fn is_lesser(n: int, a: int, b: int) -> bool {
    &&& n <= a
    &&& n <= b
    &&& n == a || n == b
}

/// Whether `n` is the larger of `a` and `b`.
pub open spec fn is_greater(n: int, a: int, b: int) -> bool {
    &&& n >= a
    &&& n >= b
    &&& n == a || n == b
}

/// Whether `ratio` asks for `part` out of `whole`, scaled to `length`.
pub open spec fn asks_for_share(
    ratio: Option<Ratio>,
    part: int,
    whole: int,
    length: int,
) -> bool {
    &&& ratio matches Some(r)
    &&& r.part == part
    &&& r.whole == whole
    &&& r.length == length
}

/// Whether the size of a thumb is what `raw` comes to between one cell and four
/// fifths of a bar of `height` cells.
pub open spec fn is_row_size(size: int, raw: usize, height: int) -> bool {
    exists|raised: int|
        #![trigger is_greater(raised, raw as int, 1)]
        is_greater(raised, raw as int, 1) && is_lesser(size, raised, (height * 4) / 5)
}

/// Whether the cells of the screen are as they were but for `len` cells from `x`,
/// `y` on, down or across: these show a space in the colour of the thumb from `start`
/// up to `end`, and in the colour of the track elsewhere.
pub open spec fn shows_bar(
    before: Map<(u16, u16), (Seq<char>, Color, Color, u16)>,
    after: Map<(u16, u16), (Seq<char>, Color, Color, u16)>,
    down: bool,
    x: u16,
    y: u16,
    len: int,
    start: int,
    end: int,
    theme: Theme,
) -> bool {
    &&& forall|at: (u16, u16)|
        #![trigger after.dom().contains(at)]
        #![trigger before.dom().contains(at)]
        after.dom().contains(at) <==> before.dom().contains(at)
    &&& forall|at: (u16, u16)|
        #![trigger after[at]]
        before.dom().contains(at) ==> {
            let i = if down {
                at.1 - y
            } else {
                at.0 - x
            };
            let on_line = if down {
                at.0 == x
            } else {
                at.1 == y
            };
            if on_line && 0 <= i < len {
                &&& after[at].0 == seq![' ']
                &&& after[at].1 == before[at].1
                &&& start <= i < end ==> after[at].2 == theme.scrollbar_thumb_fg
                &&& !(start <= i < end) ==> after[at].2 == theme.scrollbar_track_fg
                &&& after[at].3 == before[at].3
            } else {
                after[at] == before[at]
            }
        }
}

/// A buffer's bar asks how large a share of the lines is seen where they are more
/// than the bar is high, and for no share in a large file.
pub proof fn law_bar_asks_for_the_seen_share(
    state: &EditorState,
    rect: Rect,
    threshold: u64,
    total_lines: usize,
    bytes: usize,
    ratio: Option<Ratio>,
)
    requires
        call_ensures(TextBuffer::len, (&state.buffer,), bytes),
        call_ensures(scrollbar_size_ratio, (state, rect, threshold, total_lines), ratio),
    ensures
        bytes <= threshold && total_lines > rect.height ==> asks_for_share(
            ratio,
            rect.height as int,
            total_lines as int,
            rect.height as int,
        ),
        bytes > threshold || total_lines <= rect.height ==> ratio is None,
{
}

/// A buffer's bar asks where the top line stands among the lines that can be
/// scrolled to, for every line and not only the first and the last, on what the thumb
/// leaves of the bar. In a large file it asks where the top byte stands among all
/// bytes, on the whole bar.
pub proof fn law_bar_asks_for_the_position(
    buf: &mut Buffer,
    state: &EditorState,
    viewport: &Viewport,
    rect: Rect,
    theme: &Theme,
    threshold: u64,
    total_lines: usize,
    top_line: usize,
    size: usize,
    start: usize,
    bytes: usize,
    ratio: Option<Ratio>,
    thumb: (usize, usize),
)
    requires
        rect.height > 0,
        call_ensures(TextBuffer::len, (&state.buffer,), bytes),
        call_ensures(
            scrollbar_start_ratio,
            (state, viewport, rect, threshold, total_lines, top_line, size),
            ratio,
        ),
        call_ensures(
            render_scrollbar,
            (buf, state, rect, theme, threshold, total_lines, Proportions { size, start }),
            thumb,
        ),
    ensures
        bytes > threshold ==> asks_for_share(
            ratio,
            viewport.top_byte as int,
            bytes as int,
            rect.height as int,
        ),
        bytes <= threshold && total_lines <= rect.height ==> ratio is None,
        bytes <= threshold && total_lines > rect.height ==> {
            let last = total_lines - rect.height;
            &&& ratio matches Some(r)
            &&& is_lesser(r.part as int, top_line as int, last)
            &&& r.whole == last
            &&& r.length + (thumb.1 - thumb.0) == rect.height
        },
{
}

/// A buffer's bar is painted with its thumb where the mouse finds it. In a large file
/// the thumb is one cell from the start that was worked out; where all lines are seen
/// it is the bar; else it is as large as was worked out, within its limits, from the
/// start that was worked out. A bar without height is not painted.
pub proof fn law_bar_is_painted_with_its_thumb(
    buf: &mut Buffer,
    state: &EditorState,
    rect: Rect,
    theme: &Theme,
    threshold: u64,
    total_lines: usize,
    proportions: Proportions,
    bytes: usize,
    thumb: (usize, usize),
)
    requires
        call_ensures(TextBuffer::len, (&state.buffer,), bytes),
        call_ensures(
            render_scrollbar,
            (buf, state, rect, theme, threshold, total_lines, proportions),
            thumb,
        ),
    ensures
        rect.height == 0 ==> {
            &&& thumb == (0usize, 0usize)
            &&& buffer_cells(*final(buf)) == buffer_cells(*old(buf))
        },
        rect.height > 0 ==> shows_bar(
            buffer_cells(*old(buf)),
            buffer_cells(*final(buf)),
            true,
            rect.x,
            rect.y,
            rect.height as int,
            thumb.0 as int,
            thumb.1 as int,
            *theme,
        ),
        rect.height > 0 && bytes > threshold ==> {
            &&& thumb.0 == proportions.start
            &&& thumb.1 == thumb.0 + 1
        },
        rect.height > 0 && bytes <= threshold && total_lines <= rect.height ==> {
            &&& thumb.0 == 0
            &&& thumb.1 == rect.height
        },
        rect.height > 0 && bytes <= threshold && total_lines > rect.height ==> {
            &&& thumb.0 == proportions.start
            &&& is_row_size(thumb.1 - thumb.0, proportions.size, rect.height as int)
        },
{
    let raised = if proportions.size < 1 {
        1
    } else {
        proportions.size as int
    };
    assert(is_greater(raised, proportions.size as int, 1));
}

/// A composite view's bar asks how large a share of the rows is seen where there are
/// more of them, and where the first seen row stands among those that can be scrolled
/// to, on what the thumb leaves of the bar.
pub proof fn law_composite_bar_asks_for_size_and_position(
    buf: &mut Buffer,
    rect: Rect,
    theme: &Theme,
    total_rows: usize,
    scroll_row: usize,
    viewport_height: usize,
    size: usize,
    start: usize,
    size_ratio: Option<Ratio>,
    start_ratio: Option<Ratio>,
    thumb: (usize, usize),
)
    requires
        rect.height > 0,
        call_ensures(composite_size_ratio, (rect, total_rows, viewport_height), size_ratio),
        call_ensures(
            composite_start_ratio,
            (rect, total_rows, scroll_row, viewport_height, size),
            start_ratio,
        ),
        call_ensures(
            render_composite_scrollbar,
            (buf, rect, total_rows, viewport_height, theme, Proportions { size, start }),
            thumb,
        ),
    ensures
        total_rows <= viewport_height ==> size_ratio is None && start_ratio is None,
        total_rows > viewport_height ==> {
            let last = total_rows - viewport_height;
            &&& asks_for_share(
                size_ratio,
                viewport_height as int,
                total_rows as int,
                rect.height as int,
            )
            &&& start_ratio matches Some(r)
            &&& is_lesser(r.part as int, scroll_row as int, last)
            &&& r.whole == last
            &&& r.length + (thumb.1 - thumb.0) == rect.height
        },
{
}

/// A composite view's bar is painted with its thumb where the mouse finds it: all of
/// the bar where all rows are seen, else as large as was worked out, within its
/// limits, from the start that was worked out. Without rows or without height nothing
/// is painted.
pub proof fn law_composite_bar_is_painted_with_its_thumb(
    buf: &mut Buffer,
    rect: Rect,
    theme: &Theme,
    total_rows: usize,
    viewport_height: usize,
    proportions: Proportions,
    thumb: (usize, usize),
)
    requires
        call_ensures(
            render_composite_scrollbar,
            (buf, rect, total_rows, viewport_height, theme, proportions),
            thumb,
        ),
    ensures
        rect.height == 0 || total_rows == 0 ==> {
            &&& thumb == (0usize, 0usize)
            &&& buffer_cells(*final(buf)) == buffer_cells(*old(buf))
        },
        rect.height > 0 && total_rows > 0 ==> {
            &&& shows_bar(
                buffer_cells(*old(buf)),
                buffer_cells(*final(buf)),
                true,
                rect.x,
                rect.y,
                rect.height as int,
                thumb.0 as int,
                thumb.1 as int,
                *theme,
            )
            &&& total_rows <= viewport_height ==> thumb.0 == 0 && thumb.1 == rect.height
            &&& total_rows > viewport_height ==> {
                &&& thumb.0 == proportions.start
                &&& is_row_size(thumb.1 - thumb.0, proportions.size, rect.height as int)
            }
        },
{
    let raised = if proportions.size < 1 {
        1
    } else {
        proportions.size as int
    };
    assert(is_greater(raised, proportions.size as int, 1));
}

/// A horizontal bar asks how large a share of the content is seen where it can be
/// scrolled, and where the first seen column stands among those that can be scrolled
/// to, on what the thumb leaves of the bar.
pub proof fn law_horizontal_bar_asks_for_size_and_position(
    buf: &mut Buffer,
    viewport: &Viewport,
    rect: Rect,
    theme: &Theme,
    metrics: HorizontalScrollMetrics,
    size: usize,
    start: usize,
    size_ratio: Option<Ratio>,
    start_ratio: Option<Ratio>,
    thumb: (usize, usize),
)
    requires
        rect.width > 0,
        rect.height > 0,
        !viewport.line_wrap_enabled,
        call_ensures(horizontal_size_ratio, (rect, metrics), size_ratio),
        call_ensures(horizontal_start_ratio, (viewport, rect, metrics, size), start_ratio),
        call_ensures(
            render_horizontal_scrollbar,
            (buf, viewport, rect, theme, metrics, Proportions { size, start }),
            thumb,
        ),
    ensures
        metrics.max_scroll == 0 ==> size_ratio is None && start_ratio is None,
        metrics.max_scroll > 0 ==> {
            &&& asks_for_share(
                size_ratio,
                metrics.visible_text_width as int,
                metrics.content_width as int,
                rect.width as int,
            )
            &&& start_ratio matches Some(r)
            &&& is_lesser(r.part as int, viewport.left_column as int, metrics.max_scroll as int)
            &&& r.whole == metrics.max_scroll
            &&& r.length + (thumb.1 - thumb.0) == rect.width
        },
{
}

/// A horizontal bar is painted with its thumb where the mouse finds it: all of the
/// bar where nothing can be scrolled, else as large as was worked out, two cells at
/// least and no more than the bar, from the start that was worked out. With line
/// wrapping no thumb is painted and the mouse finds all of the bar; a bar without
/// cells is not painted.
pub proof fn law_horizontal_bar_is_painted_with_its_thumb(
    buf: &mut Buffer,
    viewport: &Viewport,
    rect: Rect,
    theme: &Theme,
    metrics: HorizontalScrollMetrics,
    proportions: Proportions,
    thumb: (usize, usize),
    raised: int,
)
    requires
        call_ensures(
            render_horizontal_scrollbar,
            (buf, viewport, rect, theme, metrics, proportions),
            thumb,
        ),
        is_greater(raised, proportions.size as int, 2),
    ensures
        rect.width == 0 || rect.height == 0 ==> {
            &&& thumb == (0usize, 0usize)
            &&& buffer_cells(*final(buf)) == buffer_cells(*old(buf))
        },
        rect.width > 0 && rect.height > 0 && viewport.line_wrap_enabled ==> {
            &&& thumb.0 == 0
            &&& thumb.1 == rect.width
            &&& shows_bar(
                buffer_cells(*old(buf)),
                buffer_cells(*final(buf)),
                false,
                rect.x,
                rect.y,
                rect.width as int,
                0,
                0,
                *theme,
            )
        },
        rect.width > 0 && rect.height > 0 && !viewport.line_wrap_enabled ==> {
            &&& shows_bar(
                buffer_cells(*old(buf)),
                buffer_cells(*final(buf)),
                false,
                rect.x,
                rect.y,
                rect.width as int,
                thumb.0 as int,
                thumb.1 as int,
                *theme,
            )
            &&& metrics.max_scroll == 0 ==> thumb.0 == 0 && thumb.1 == rect.width
            &&& metrics.max_scroll > 0 ==> {
                &&& thumb.0 == proportions.start
                &&& is_lesser(thumb.1 - thumb.0, raised, rect.width as int)
            }
        },
{
}

} // verus!
