//! Scrollbars: where their thumbs stand, and how they are painted.
//!
//! The proportions are rounded floating-point quotients, which the caller works
//! out: [`Ratio`] says of which numbers. All else is decided here.
use ratatui::buffer::Buffer;
use ratatui::style::Color;
use vstd::prelude::*;

use crate::view::buffer::byte_len;
use crate::view::paint::{buffer_cells, paint_bar, painted_bar, Direction, Rect, Theme};
use crate::view::scrollbar::{is_large_file, EditorState, HorizontalScrollMetrics, Viewport};

verus! {

/// `part` out of `whole`, scaled to `length` cells.
#[derive(Clone, Copy, Debug, PartialEq, Eq, Structural)]
pub struct Ratio {
    pub part: usize,
    pub whole: usize,
    pub length: usize,
}

/// The proportions of a thumb in cells: the size that its ratio comes to, before
/// limits, and the cell that its start comes to.
#[derive(Clone, Copy, Debug, PartialEq, Eq, Structural)]
pub struct Proportions {
    pub size: usize,
    pub start: usize,
}

/// How far there is to scroll.
pub open spec fn scroll_range(total: usize, visible: usize) -> int {
    if total > visible {
        total - visible
    } else {
        0
    }
}

/// The position that counts: not behind the last that can be scrolled to.
pub open spec fn clamped(position: usize, last: int) -> int {
    if position < last {
        position as int
    } else {
        last
    }
}

/// `size`, but at least `low`, and then at most `high`.
pub open spec fn limited(size: usize, low: int, high: int) -> int {
    let raised = if size < low {
        low
    } else {
        size as int
    };
    if raised > high {
        high
    } else {
        raised
    }
}

/// The size of a thumb on a bar of `height` cells over `total` rows of which
/// `visible` are seen: all of the bar where nothing can be scrolled, else the
/// size it has by proportion, at least one cell and at most four fifths of the
/// bar.
pub open spec fn row_thumb_size(height: usize, total: usize, visible: usize, size: usize) -> int {
    if scroll_range(total, visible) == 0 {
        height as int
    } else {
        limited(size, 1, height * 4 / 5)
    }
}

/// Where that thumb starts: at the top where nothing can be scrolled.
pub open spec fn row_thumb_start(total: usize, visible: usize, start: usize) -> int {
    if scroll_range(total, visible) == 0 {
        0
    } else {
        start as int
    }
}

/// What the size of that thumb is by proportion, where proportion decides it.
pub open spec fn row_size_ratio(height: usize, total: usize, visible: usize) -> Option<Ratio> {
    if scroll_range(total, visible) == 0 {
        None
    } else {
        Some(Ratio { part: visible, whole: total, length: height })
    }
}

/// Where that thumb of `thumb` cells starts by proportion, where proportion
/// decides it.
pub open spec fn row_start_ratio(
    height: usize,
    thumb: usize,
    total: usize,
    visible: usize,
    position: usize,
) -> Option<Ratio> {
    let range = scroll_range(total, visible);
    if range == 0 {
        None
    } else {
        Some(
            Ratio {
                part: clamped(position, range) as usize,
                whole: range as usize,
                length: scroll_range(height, thumb) as usize,
            },
        )
    }
}

fn scroll_range_of(total: usize, visible: usize) -> (range: usize)
    ensures
        range == scroll_range(total, visible),
{
    total.saturating_sub(visible)
}

fn clamp(position: usize, last: usize) -> (clamped_position: usize)
    ensures
        clamped_position == clamped(position, last as int),
{
    if position < last {
        position
    } else {
        last
    }
}

fn limit(size: usize, low: usize, high: usize) -> (limited_size: usize)
    ensures
        limited_size == limited(size, low as int, high as int),
{
    let raised: usize = if size < low {
        low
    } else {
        size
    };
    if raised > high {
        high
    } else {
        raised
    }
}

fn row_thumb(height: u16, total: usize, visible: usize, size: usize) -> (thumb: usize)
    ensures
        thumb == row_thumb_size(height as usize, total, visible, size),
{
    if scroll_range_of(total, visible) == 0 {
        height as usize
    } else {
        limit(size, 1, (height as u32 * 4 / 5) as usize)
    }
}

fn row_start(total: usize, visible: usize, start: usize) -> (thumb_start: usize)
    ensures
        thumb_start == row_thumb_start(total, visible, start),
{
    if scroll_range_of(total, visible) == 0 {
        0
    } else {
        start
    }
}

fn size_ratio_of(height: usize, total: usize, visible: usize) -> (ratio: Option<Ratio>)
    ensures
        ratio == row_size_ratio(height, total, visible),
{
    if scroll_range_of(total, visible) == 0 {
        None
    } else {
        Some(Ratio { part: visible, whole: total, length: height })
    }
}

fn start_ratio_of(
    height: usize,
    thumb: usize,
    total: usize,
    visible: usize,
    position: usize,
) -> (ratio: Option<Ratio>)
    ensures
        ratio == row_start_ratio(height, thumb, total, visible, position),
{
    let range: usize = scroll_range_of(total, visible);
    if range == 0 {
        None
    } else {
        Some(
            Ratio {
                part: clamp(position, range),
                whole: range,
                length: scroll_range_of(height, thumb),
            },
        )
    }
}

// ---------------------------------------------------------------------------
// The vertical scrollbar of a buffer
// ---------------------------------------------------------------------------

/// The size of the thumb of a buffer's scrollbar: one cell in a large file.
pub open spec fn buffer_thumb_size(
    height: usize,
    buffer_len: usize,
    large_file_threshold_bytes: u64,
    total_lines: usize,
    size: usize,
) -> int {
    if is_large_file(buffer_len, large_file_threshold_bytes) {
        1
    } else {
        row_thumb_size(height, total_lines, height, size)
    }
}

/// What the size of that thumb is by proportion, where proportion decides it.
pub open spec fn buffer_size_ratio(
    height: usize,
    buffer_len: usize,
    large_file_threshold_bytes: u64,
    total_lines: usize,
) -> Option<Ratio> {
    if is_large_file(buffer_len, large_file_threshold_bytes) {
        None
    } else {
        row_size_ratio(height, total_lines, height)
    }
}

/// Where the thumb of a buffer's scrollbar starts.
pub open spec fn buffer_thumb_start(
    height: usize,
    buffer_len: usize,
    large_file_threshold_bytes: u64,
    total_lines: usize,
    start: usize,
) -> int {
    if is_large_file(buffer_len, large_file_threshold_bytes) {
        start as int
    } else {
        row_thumb_start(total_lines, height, start)
    }
}

/// Where the thumb of a buffer's scrollbar starts by proportion: in a large file
/// by bytes, else by lines.
pub open spec fn buffer_start_ratio(
    height: usize,
    buffer_len: usize,
    large_file_threshold_bytes: u64,
    top_byte: usize,
    total_lines: usize,
    top_line: usize,
    size: usize,
) -> Option<Ratio> {
    if is_large_file(buffer_len, large_file_threshold_bytes) {
        Some(Ratio { part: top_byte, whole: buffer_len, length: height })
    } else {
        row_start_ratio(
            height,
            row_thumb_size(height, total_lines, height, size) as usize,
            total_lines,
            height,
            top_line,
        )
    }
}

/// What becomes of a buffer's scrollbar: the cells that its thumb starts at and ends
/// before, and the cells of the screen once it is painted. A bar without height has
/// no thumb.
pub open spec fn buffer_bar(
    cells: Map<(u16, u16), (Seq<char>, Color, Color, u16)>,
    rect: Rect,
    theme: Theme,
    buffer_len: usize,
    large_file_threshold_bytes: u64,
    total_lines: usize,
    proportions: Proportions,
) -> ((int, int), Map<(u16, u16), (Seq<char>, Color, Color, u16)>) {
    let height = rect.height as usize;
    if height == 0 {
        ((0, 0), cells)
    } else {
        let start = buffer_thumb_start(
            height,
            buffer_len,
            large_file_threshold_bytes,
            total_lines,
            proportions.start,
        );
        let end = start + buffer_thumb_size(
            height,
            buffer_len,
            large_file_threshold_bytes,
            total_lines,
            proportions.size,
        );
        (
            (start, end),
            painted_bar(
                cells,
                Direction::Vertical,
                rect.x,
                rect.y,
                height as int,
                start,
                end,
                theme,
            ),
        )
    }
}

/// What the size of the thumb of a buffer's scrollbar is by proportion, where
/// proportion decides it.
pub fn scrollbar_size_ratio(
    state: &EditorState,
    scrollbar_rect: Rect,
    large_file_threshold_bytes: u64,
    total_lines: usize,
) -> (ratio: Option<Ratio>)
    ensures
        ratio == buffer_size_ratio(
            scrollbar_rect.height as usize,
            byte_len(state.buffer@) as usize,
            large_file_threshold_bytes,
            total_lines,
        ),
{
    if state.buffer.len() as u64 > large_file_threshold_bytes {
        return None;
    }
    let height: usize = scrollbar_rect.height as usize;
    size_ratio_of(height, total_lines, height)
}

/// Where the thumb of a buffer's scrollbar starts by proportion, given its size
/// by proportion, where proportion decides it.
pub fn scrollbar_start_ratio(
    state: &EditorState,
    viewport: &Viewport,
    scrollbar_rect: Rect,
    large_file_threshold_bytes: u64,
    total_lines: usize,
    top_line: usize,
    size: usize,
) -> (ratio: Option<Ratio>)
    ensures
        ratio == buffer_start_ratio(
            scrollbar_rect.height as usize,
            byte_len(state.buffer@) as usize,
            large_file_threshold_bytes,
            viewport.top_byte,
            total_lines,
            top_line,
            size,
        ),
{
    let height: usize = scrollbar_rect.height as usize;
    let buffer_len: usize = state.buffer.len();
    if buffer_len as u64 > large_file_threshold_bytes {
        return Some(Ratio { part: viewport.top_byte, whole: buffer_len, length: height });
    }
    let thumb: usize = row_thumb(scrollbar_rect.height, total_lines, height, size);
    start_ratio_of(height, thumb, total_lines, height, top_line)
}

/// Paints the vertical scrollbar of a buffer. Gives the cells that the thumb
/// starts at and ends before, for the mouse; a bar without height has none.
pub fn render_scrollbar(
    buf: &mut Buffer,
    state: &EditorState,
    scrollbar_rect: Rect,
    theme: &Theme,
    large_file_threshold_bytes: u64,
    total_lines: usize,
    proportions: Proportions,
) -> (thumb: (usize, usize))
    requires
        scrollbar_rect.y + scrollbar_rect.height <= u16::MAX + 1,
        buffer_bar(
            buffer_cells(*old(buf)),
            scrollbar_rect,
            *theme,
            byte_len(state.buffer@) as usize,
            large_file_threshold_bytes,
            total_lines,
            proportions,
        ).0.1 <= usize::MAX,
    ensures
        ((thumb.0 as int, thumb.1 as int), buffer_cells(*final(buf))) == buffer_bar(
            buffer_cells(*old(buf)),
            scrollbar_rect,
            *theme,
            byte_len(state.buffer@) as usize,
            large_file_threshold_bytes,
            total_lines,
            proportions,
        ),
{
    let height: usize = scrollbar_rect.height as usize;
    if height == 0 {
        return (0, 0);
    }
    let (thumb_start, thumb_size) = if state.buffer.len() as u64 > large_file_threshold_bytes {
        (proportions.start, 1usize)
    } else {
        (
            row_start(total_lines, height, proportions.start),
            row_thumb(scrollbar_rect.height, total_lines, height, proportions.size),
        )
    };
    let thumb_end: usize = thumb_start + thumb_size;
    paint_bar(
        buf,
        Direction::Vertical,
        scrollbar_rect.x,
        scrollbar_rect.y,
        scrollbar_rect.height,
        thumb_start,
        thumb_end,
        theme,
    );
    (thumb_start, thumb_end)
}

// ---------------------------------------------------------------------------
// The horizontal scrollbar
// ---------------------------------------------------------------------------

/// The size of the thumb of a horizontal scrollbar: all of the bar where nothing
/// can be scrolled, else the size it has by proportion, at least two cells and at
/// most the bar.
pub open spec fn column_thumb_size(
    width: usize,
    metrics: HorizontalScrollMetrics,
    size: usize,
) -> int {
    if metrics.max_scroll == 0 {
        width as int
    } else {
        limited(size, 2, width as int)
    }
}

/// Where that thumb starts: at the left where nothing can be scrolled.
pub open spec fn column_thumb_start(metrics: HorizontalScrollMetrics, start: usize) -> int {
    if metrics.max_scroll == 0 {
        0
    } else {
        start as int
    }
}

/// What the size of that thumb is by proportion, where proportion decides it.
pub open spec fn column_size_ratio(width: usize, metrics: HorizontalScrollMetrics) -> Option<
    Ratio,
> {
    if metrics.max_scroll == 0 {
        None
    } else {
        Some(
            Ratio {
                part: metrics.visible_text_width,
                whole: metrics.content_width,
                length: width,
            },
        )
    }
}

/// Where that thumb starts by proportion, where proportion decides it.
pub open spec fn column_start_ratio(
    width: usize,
    metrics: HorizontalScrollMetrics,
    left_column: usize,
    size: usize,
) -> Option<Ratio> {
    if metrics.max_scroll == 0 {
        None
    } else {
        Some(
            Ratio {
                part: clamped(left_column, metrics.max_scroll as int) as usize,
                whole: metrics.max_scroll,
                length: scroll_range(
                    width,
                    column_thumb_size(width, metrics, size) as usize,
                ) as usize,
            },
        )
    }
}

fn column_thumb(width: usize, metrics: HorizontalScrollMetrics, size: usize) -> (thumb: usize)
    ensures
        thumb == column_thumb_size(width, metrics, size),
{
    if metrics.max_scroll == 0 {
        width
    } else {
        limit(size, 2, width)
    }
}

/// What becomes of a horizontal scrollbar: the cells that its thumb starts at and
/// ends before, and the cells of the screen once it is painted. A bar without cells
/// has no thumb. With line wrapping none is shown, and the mouse finds all of the
/// bar.
pub open spec fn column_bar(
    cells: Map<(u16, u16), (Seq<char>, Color, Color, u16)>,
    rect: Rect,
    theme: Theme,
    line_wrap_enabled: bool,
    metrics: HorizontalScrollMetrics,
    proportions: Proportions,
) -> ((int, int), Map<(u16, u16), (Seq<char>, Color, Color, u16)>) {
    let width = rect.width as usize;
    if width == 0 || rect.height == 0 {
        ((0, 0), cells)
    } else if line_wrap_enabled {
        (
            (0, width as int),
            painted_bar(
                cells,
                Direction::Horizontal,
                rect.x,
                rect.y,
                width as int,
                0,
                0,
                theme,
            ),
        )
    } else {
        let start = column_thumb_start(metrics, proportions.start);
        let end = start + column_thumb_size(width, metrics, proportions.size);
        (
            (start, end),
            painted_bar(
                cells,
                Direction::Horizontal,
                rect.x,
                rect.y,
                width as int,
                start,
                end,
                theme,
            ),
        )
    }
}

/// What the size of the thumb of a horizontal scrollbar is by proportion, where
/// proportion decides it.
pub fn horizontal_size_ratio(hscrollbar_rect: Rect, metrics: HorizontalScrollMetrics) -> (ratio:
    Option<Ratio>)
    ensures
        ratio == column_size_ratio(hscrollbar_rect.width as usize, metrics),
{
    if metrics.max_scroll == 0 {
        None
    } else {
        Some(
            Ratio {
                part: metrics.visible_text_width,
                whole: metrics.content_width,
                length: hscrollbar_rect.width as usize,
            },
        )
    }
}

/// Where the thumb of a horizontal scrollbar starts by proportion, given its size
/// by proportion.
pub fn horizontal_start_ratio(
    viewport: &Viewport,
    hscrollbar_rect: Rect,
    metrics: HorizontalScrollMetrics,
    size: usize,
) -> (ratio: Option<Ratio>)
    ensures
        ratio == column_start_ratio(
            hscrollbar_rect.width as usize,
            metrics,
            viewport.left_column,
            size,
        ),
{
    if metrics.max_scroll == 0 {
        None
    } else {
        let width: usize = hscrollbar_rect.width as usize;
        Some(
            Ratio {
                part: clamp(viewport.left_column, metrics.max_scroll),
                whole: metrics.max_scroll,
                length: scroll_range_of(width, column_thumb(width, metrics, size)),
            },
        )
    }
}

/// Paints a horizontal scrollbar. Gives the cells that the thumb starts at and
/// ends before, for the mouse; a bar without cells has none. With line wrapping
/// there is nothing to scroll: the bar shows no thumb, and the mouse finds all of
/// it.
pub fn render_horizontal_scrollbar(
    buf: &mut Buffer,
    viewport: &Viewport,
    hscrollbar_rect: Rect,
    theme: &Theme,
    metrics: HorizontalScrollMetrics,
    proportions: Proportions,
) -> (thumb: (usize, usize))
    requires
        hscrollbar_rect.height > 0 ==> hscrollbar_rect.x + hscrollbar_rect.width <= u16::MAX + 1,
        column_bar(
            buffer_cells(*old(buf)),
            hscrollbar_rect,
            *theme,
            viewport.line_wrap_enabled,
            metrics,
            proportions,
        ).0.1 <= usize::MAX,
    ensures
        ((thumb.0 as int, thumb.1 as int), buffer_cells(*final(buf))) == column_bar(
            buffer_cells(*old(buf)),
            hscrollbar_rect,
            *theme,
            viewport.line_wrap_enabled,
            metrics,
            proportions,
        ),
{
    let width: usize = hscrollbar_rect.width as usize;
    if width == 0 || hscrollbar_rect.height == 0 {
        return (0, 0);
    }
    if viewport.line_wrap_enabled {
        paint_bar(
            buf,
            Direction::Horizontal,
            hscrollbar_rect.x,
            hscrollbar_rect.y,
            hscrollbar_rect.width,
            0,
            0,
            theme,
        );
        return (0, width);
    }
    let thumb_start: usize = if metrics.max_scroll == 0 {
        0
    } else {
        proportions.start
    };
    let thumb_end: usize = thumb_start + column_thumb(width, metrics, proportions.size);
    paint_bar(
        buf,
        Direction::Horizontal,
        hscrollbar_rect.x,
        hscrollbar_rect.y,
        hscrollbar_rect.width,
        thumb_start,
        thumb_end,
        theme,
    );
    (thumb_start, thumb_end)
}

// ---------------------------------------------------------------------------
// The scrollbar of a composite view
// ---------------------------------------------------------------------------

/// What becomes of the scrollbar of a composite view: the cells that its thumb
/// starts at and ends before, and the cells of the screen once it is painted.
/// Without rows, or without height, there is no thumb and nothing is painted.
pub open spec fn composite_bar(
    cells: Map<(u16, u16), (Seq<char>, Color, Color, u16)>,
    rect: Rect,
    theme: Theme,
    total_rows: usize,
    viewport_height: usize,
    proportions: Proportions,
) -> ((int, int), Map<(u16, u16), (Seq<char>, Color, Color, u16)>) {
    let height = rect.height as usize;
    if height == 0 || total_rows == 0 {
        ((0, 0), cells)
    } else {
        let start = row_thumb_start(total_rows, viewport_height, proportions.start);
        let end = start + row_thumb_size(height, total_rows, viewport_height, proportions.size);
        (
            (start, end),
            painted_bar(
                cells,
                Direction::Vertical,
                rect.x,
                rect.y,
                height as int,
                start,
                end,
                theme,
            ),
        )
    }
}

/// What the size of the thumb of a composite view's scrollbar is by proportion,
/// where proportion decides it.
pub fn composite_size_ratio(scrollbar_rect: Rect, total_rows: usize, viewport_height: usize) -> (
    ratio: Option<Ratio>)
    ensures
        ratio == row_size_ratio(scrollbar_rect.height as usize, total_rows, viewport_height),
{
    size_ratio_of(scrollbar_rect.height as usize, total_rows, viewport_height)
}

/// Where the thumb of a composite view's scrollbar starts by proportion, given
/// its size by proportion, where proportion decides it.
pub fn composite_start_ratio(
    scrollbar_rect: Rect,
    total_rows: usize,
    scroll_row: usize,
    viewport_height: usize,
    size: usize,
) -> (ratio: Option<Ratio>)
    ensures
        ratio == row_start_ratio(
            scrollbar_rect.height as usize,
            row_thumb_size(
                scrollbar_rect.height as usize,
                total_rows,
                viewport_height,
                size,
            ) as usize,
            total_rows,
            viewport_height,
            scroll_row,
        ),
{
    let thumb: usize = row_thumb(scrollbar_rect.height, total_rows, viewport_height, size);
    start_ratio_of(scrollbar_rect.height as usize, thumb, total_rows, viewport_height, scroll_row)
}

/// Paints the scrollbar of a composite view. Gives the cells that the thumb
/// starts at and ends before, for the mouse. Without rows, or without height,
/// nothing is painted.
pub fn render_composite_scrollbar(
    buf: &mut Buffer,
    scrollbar_rect: Rect,
    total_rows: usize,
    viewport_height: usize,
    theme: &Theme,
    proportions: Proportions,
) -> (thumb: (usize, usize))
    requires
        total_rows > 0 ==> scrollbar_rect.y + scrollbar_rect.height <= u16::MAX + 1,
        composite_bar(
            buffer_cells(*old(buf)),
            scrollbar_rect,
            *theme,
            total_rows,
            viewport_height,
            proportions,
        ).0.1 <= usize::MAX,
    ensures
        ((thumb.0 as int, thumb.1 as int), buffer_cells(*final(buf))) == composite_bar(
            buffer_cells(*old(buf)),
            scrollbar_rect,
            *theme,
            total_rows,
            viewport_height,
            proportions,
        ),
{
    if scrollbar_rect.height == 0 || total_rows == 0 {
        return (0, 0);
    }
    let thumb_size: usize = row_thumb(
        scrollbar_rect.height,
        total_rows,
        viewport_height,
        proportions.size,
    );
    let thumb_start: usize = row_start(total_rows, viewport_height, proportions.start);
    let thumb_end: usize = thumb_start + thumb_size;
    paint_bar(
        buf,
        Direction::Vertical,
        scrollbar_rect.x,
        scrollbar_rect.y,
        scrollbar_rect.height,
        thumb_start,
        thumb_end,
        theme,
    );
    (thumb_start, thumb_end)
}

// ---------------------------------------------------------------------------
// Laws
// ---------------------------------------------------------------------------

/// What floating-point rounding keeps of a proportion, up or down as it rounds: a
/// part of a whole comes to no more than the length, no part to nothing, the whole
/// to all of the length, and a larger part to no less.
pub open spec fn is_scaling(scale: spec_fn(Ratio) -> usize) -> bool {
    &&& forall|r: Ratio|
        r.part <= r.whole && 0 < r.whole && r.length <= u16::MAX ==> #[trigger] scale(r)
            <= r.length
    &&& forall|r: Ratio| r.part == 0 && 0 < r.whole ==> #[trigger] scale(r) == 0
    &&& forall|r: Ratio|
        r.part == r.whole && 0 < r.whole && r.length <= u16::MAX ==> #[trigger] scale(r)
            == r.length
    &&& forall|a: Ratio, b: Ratio|
        a.part <= b.part && a.whole == b.whole && 0 < a.whole && a.length == b.length
            ==> #[trigger] scale(a) <= #[trigger] scale(b)
}

/// Rounding down: less than a whole comes to less than the length. Wholes from
/// 2^32 on, whose quotients may round to one, are left out.
pub open spec fn rounds_down(scale: spec_fn(Ratio) -> usize) -> bool {
    forall|r: Ratio|
        r.part < r.whole && r.whole < 0x1_0000_0000 && 0 < r.length <= u16::MAX
            ==> #[trigger] scale(r) < r.length
}

/// The whole cells of a proportion, as many as can be counted.
pub open spec fn whole_cells(r: Ratio) -> usize {
    let cells = (r.part * r.length) / (r.whole as int);
    if cells > usize::MAX {
        usize::MAX
    } else {
        cells as usize
    }
}

/// Exact quotients, cut off to whole cells, are such a scaling and round down.
pub proof fn law_whole_cells_are_a_scaling()
    ensures
        is_scaling(|r: Ratio| whole_cells(r)),
        rounds_down(|r: Ratio| whole_cells(r)),
{
    let scale = |r: Ratio| whole_cells(r);
    assert forall|r: Ratio| r.part <= r.whole && 0 < r.whole implies #[trigger] scale(r)
        <= r.length by {
        lemma_quotient_bound(r.part as int, r.whole as int, r.length as int);
    }
    assert forall|r: Ratio| r.part == 0 && 0 < r.whole implies #[trigger] scale(r) == 0 by {
        lemma_quotient_bound(0, r.whole as int, r.length as int);
    }
    assert forall|r: Ratio| r.part == r.whole && 0 < r.whole implies #[trigger] scale(r)
        == r.length by {
        lemma_quotient_bound(r.part as int, r.whole as int, r.length as int);
    }
    assert forall|a: Ratio, b: Ratio|
        a.part <= b.part && a.whole == b.whole && 0 < a.whole && a.length == b.length implies (
    #[trigger] scale(a)) <= #[trigger] scale(b) by {
        lemma_quotient_grows(a.part as int, b.part as int, a.whole as int, a.length as int);
    }
    assert forall|r: Ratio| r.part < r.whole && 0 < r.length implies #[trigger] scale(r)
        < r.length by {
        lemma_quotient_bound(r.part as int, r.whole as int, r.length as int);
    }
}

proof fn lemma_quotient_bound(part: int, whole: int, length: int)
    by (nonlinear_arith)
    requires
        0 <= part <= whole,
        0 < whole,
        0 <= length,
    ensures
        0 <= (part * length) / whole <= length,
        part == 0 ==> (part * length) / whole == 0,
        part == whole ==> (part * length) / whole == length,
        part < whole && 0 < length ==> (part * length) / whole < length,
{
}

proof fn lemma_quotient_grows(a: int, b: int, whole: int, length: int)
    by (nonlinear_arith)
    requires
        0 <= a <= b,
        0 < whole,
        0 <= length,
    ensures
        0 <= (a * length) / whole <= (b * length) / whole,
{
    assert(a * length <= b * length);
}

/// The cells that a proportion comes to, none where proportion does not decide.
pub open spec fn scaled(ratio: Option<Ratio>, scale: spec_fn(Ratio) -> usize) -> usize {
    match ratio {
        Some(r) => scale(r),
        None => 0,
    }
}

/// The cells that the thumb of a vertical bar starts at and ends before, over
/// `total` rows of which `visible` are seen from `position` on.
pub open spec fn row_thumb_at(
    height: usize,
    total: usize,
    visible: usize,
    position: usize,
    size: usize,
    scale: spec_fn(Ratio) -> usize,
) -> (int, int) {
    let thumb = row_thumb_size(height, total, visible, size);
    let start = scaled(
        row_start_ratio(height, thumb as usize, total, visible, position),
        scale,
    );
    (
        row_thumb_start(total, visible, start),
        row_thumb_start(total, visible, start) + thumb,
    )
}

/// The cells that the thumb of a buffer's scrollbar starts at and ends before.
pub open spec fn buffer_thumb_at(
    height: usize,
    buffer_len: usize,
    large_file_threshold_bytes: u64,
    top_byte: usize,
    total_lines: usize,
    top_line: usize,
    size: usize,
    scale: spec_fn(Ratio) -> usize,
) -> (int, int) {
    let start = buffer_thumb_start(
        height,
        buffer_len,
        large_file_threshold_bytes,
        total_lines,
        scaled(
            buffer_start_ratio(
                height,
                buffer_len,
                large_file_threshold_bytes,
                top_byte,
                total_lines,
                top_line,
                size,
            ),
            scale,
        ),
    );
    (
        start,
        start + buffer_thumb_size(
            height,
            buffer_len,
            large_file_threshold_bytes,
            total_lines,
            size,
        ),
    )
}

/// The cells that the thumb of a horizontal bar starts at and ends before.
pub open spec fn column_thumb_at(
    width: usize,
    metrics: HorizontalScrollMetrics,
    left_column: usize,
    size: usize,
    scale: spec_fn(Ratio) -> usize,
) -> (int, int) {
    let start = column_thumb_start(
        metrics,
        scaled(column_start_ratio(width, metrics, left_column, size), scale),
    );
    (start, start + column_thumb_size(width, metrics, size))
}

/// A vertical thumb shows where the view stands. Where all is seen it fills the
/// bar. Else it stays on the bar and takes at most four fifths of it, and one cell
/// at least where the bar has two; it is at the top for the first row, and at the
/// bottom for the last row that can be scrolled to and those behind it.
pub proof fn law_row_thumb_shows_the_position(
    height: usize,
    total: usize,
    visible: usize,
    position: usize,
    size: usize,
    scale: spec_fn(Ratio) -> usize,
)
    requires
        height <= u16::MAX,
        is_scaling(scale),
    ensures
        ({
            let (start, end) = row_thumb_at(height, total, visible, position, size, scale);
            if total <= visible {
                start == 0 && end == height
            } else {
                &&& 0 <= start <= end <= height
                &&& end - start <= height * 4 / 5
                &&& height >= 2 ==> 1 <= end - start
                &&& position == 0 ==> start == 0
                &&& position >= total - visible ==> end == height
            }
        }),
        ({
            let thumb = row_thumb_size(height, total, visible, size);
            row_start_ratio(height, thumb as usize, total, visible, position) matches Some(r) ==> {
                &&& 0 < r.whole
                &&& r.part <= r.whole
                &&& r.length + thumb == height
                &&& position == 0 ==> r.part == 0
                &&& position >= total - visible ==> r.part == r.whole
            }
        }),
{
    let thumb = row_thumb_size(height, total, visible, size);
    if let Some(r) = row_start_ratio(height, thumb as usize, total, visible, position) {
        assert(scale(r) <= r.length);
    }
}

/// Scrolling down never moves a vertical thumb up, and its size does not depend on
/// the position: the part that its start is reckoned from grows, and nothing else
/// changes.
pub proof fn law_row_thumb_follows_the_position(
    height: usize,
    total: usize,
    visible: usize,
    a: usize,
    b: usize,
    size: usize,
    scale: spec_fn(Ratio) -> usize,
)
    requires
        is_scaling(scale),
        a <= b,
    ensures
        ({
            let thumb = row_thumb_size(height, total, visible, size) as usize;
            let at_a = row_start_ratio(height, thumb, total, visible, a);
            let at_b = row_start_ratio(height, thumb, total, visible, b);
            &&& at_a is Some <==> at_b is Some
            &&& at_a is Some ==> at_a->0.part <= at_b->0.part && at_a->0.whole == at_b->0.whole
                && at_a->0.length == at_b->0.length
        }),
        ({
            let at_a = row_thumb_at(height, total, visible, a, size, scale);
            let at_b = row_thumb_at(height, total, visible, b, size, scale);
            at_a.0 <= at_b.0 && at_a.1 - at_a.0 == at_b.1 - at_b.0
        }),
{
    let thumb = row_thumb_size(height, total, visible, size) as usize;
    let at_a = row_start_ratio(height, thumb, total, visible, a);
    let at_b = row_start_ratio(height, thumb, total, visible, b);
    if at_a is Some {
        assert(scale(at_a->0) <= scale(at_b->0));
    }
}

/// The thumb of a buffer that is no large file is that of a vertical bar over its
/// lines, of which as many are seen as the bar is high.
pub proof fn law_buffer_thumb_is_a_row_thumb(
    height: usize,
    buffer_len: usize,
    large_file_threshold_bytes: u64,
    top_byte: usize,
    total_lines: usize,
    top_line: usize,
    size: usize,
    scale: spec_fn(Ratio) -> usize,
)
    requires
        !is_large_file(buffer_len, large_file_threshold_bytes),
    ensures
        buffer_thumb_at(
            height,
            buffer_len,
            large_file_threshold_bytes,
            top_byte,
            total_lines,
            top_line,
            size,
            scale,
        ) == row_thumb_at(height, total_lines, height, top_line, size, scale),
{
}

/// The thumb of a large file is one cell that never leaves the bar, at the top for
/// the first byte. The lines do not matter to it.
pub proof fn law_large_file_thumb_shows_the_byte(
    height: usize,
    buffer_len: usize,
    large_file_threshold_bytes: u64,
    top_byte: usize,
    lines: (usize, usize, usize),
    other_lines: (usize, usize, usize),
    scale: spec_fn(Ratio) -> usize,
)
    requires
        0 < height <= u16::MAX,
        is_large_file(buffer_len, large_file_threshold_bytes),
        buffer_len < 0x1_0000_0000,
        top_byte < buffer_len,
        is_scaling(scale),
        rounds_down(scale),
    ensures
        ({
            let (start, end) = buffer_thumb_at(
                height,
                buffer_len,
                large_file_threshold_bytes,
                top_byte,
                lines.0,
                lines.1,
                lines.2,
                scale,
            );
            &&& end == start + 1
            &&& 0 <= start < end <= height
            &&& top_byte == 0 ==> start == 0
            &&& (start, end) == buffer_thumb_at(
                height,
                buffer_len,
                large_file_threshold_bytes,
                top_byte,
                other_lines.0,
                other_lines.1,
                other_lines.2,
                scale,
            )
        }),
{
    let r = Ratio { part: top_byte, whole: buffer_len, length: height };
    assert(scale(r) < r.length);
}

/// Scrolling down a large file never moves its thumb up.
pub proof fn law_large_file_thumb_follows_the_byte(
    height: usize,
    buffer_len: usize,
    large_file_threshold_bytes: u64,
    a: usize,
    b: usize,
    total_lines: usize,
    top_line: usize,
    size: usize,
    scale: spec_fn(Ratio) -> usize,
)
    requires
        is_large_file(buffer_len, large_file_threshold_bytes),
        a <= b,
        is_scaling(scale),
    ensures
        buffer_thumb_at(
            height,
            buffer_len,
            large_file_threshold_bytes,
            a,
            total_lines,
            top_line,
            size,
            scale,
        ).0 <= buffer_thumb_at(
            height,
            buffer_len,
            large_file_threshold_bytes,
            b,
            total_lines,
            top_line,
            size,
            scale,
        ).0,
{
    let at_a = Ratio { part: a, whole: buffer_len, length: height };
    let at_b = Ratio { part: b, whole: buffer_len, length: height };
    assert(scale(at_a) <= scale(at_b));
}

/// A horizontal thumb shows where the view stands. Where nothing can be scrolled it
/// fills the bar. Else it stays on the bar and takes two cells at least where the
/// bar has them; it is at the left end for the first column, and at the right end
/// for the last that can be scrolled to and those behind it.
pub proof fn law_column_thumb_shows_the_position(
    width: usize,
    metrics: HorizontalScrollMetrics,
    left_column: usize,
    size: usize,
    scale: spec_fn(Ratio) -> usize,
)
    requires
        width <= u16::MAX,
        is_scaling(scale),
    ensures
        ({
            let (start, end) = column_thumb_at(width, metrics, left_column, size, scale);
            if metrics.max_scroll == 0 {
                start == 0 && end == width
            } else {
                &&& 0 <= start <= end <= width
                &&& end - start >= if width < 2 {
                    width as int
                } else {
                    2
                }
                &&& left_column == 0 ==> start == 0
                &&& left_column >= metrics.max_scroll ==> end == width
            }
        }),
        column_start_ratio(width, metrics, left_column, size) matches Some(r) ==> {
            &&& 0 < r.whole
            &&& r.part <= r.whole
            &&& r.length + column_thumb_size(width, metrics, size) == width
            &&& left_column == 0 ==> r.part == 0
            &&& left_column >= metrics.max_scroll ==> r.part == r.whole
        },
{
    if let Some(r) = column_start_ratio(width, metrics, left_column, size) {
        assert(scale(r) <= r.length);
    }
}

/// Scrolling right never moves a horizontal thumb left, and its size does not
/// depend on the position.
pub proof fn law_column_thumb_follows_the_position(
    width: usize,
    metrics: HorizontalScrollMetrics,
    a: usize,
    b: usize,
    size: usize,
    scale: spec_fn(Ratio) -> usize,
)
    requires
        is_scaling(scale),
        a <= b,
    ensures
        ({
            let at_a = column_thumb_at(width, metrics, a, size, scale);
            let at_b = column_thumb_at(width, metrics, b, size, scale);
            at_a.0 <= at_b.0 && at_a.1 - at_a.0 == at_b.1 - at_b.0
        }),
        ({
            let at_a = column_start_ratio(width, metrics, a, size);
            let at_b = column_start_ratio(width, metrics, b, size);
            &&& at_a is Some <==> at_b is Some
            &&& at_a is Some ==> at_a->0.part <= at_b->0.part && at_a->0.whole == at_b->0.whole
                && at_a->0.length == at_b->0.length
        }),
{
    let at_a = column_start_ratio(width, metrics, a, size);
    let at_b = column_start_ratio(width, metrics, b, size);
    if at_a is Some {
        assert(scale(at_a->0) <= scale(at_b->0));
    }
}

/// A composite view that is as high as its bar has the scrollbar of a buffer with
/// as many lines: the same proportions are asked for, and from the same proportions
/// come the same thumb and the same cells. Only without rows do they differ: the
/// composite view then has no thumb and paints nothing, the buffer a full one.
pub proof fn law_composite_bar_is_a_buffer_bar(
    cells: Map<(u16, u16), (Seq<char>, Color, Color, u16)>,
    rect: Rect,
    theme: Theme,
    buffer_len: usize,
    large_file_threshold_bytes: u64,
    top_byte: usize,
    total: usize,
    position: usize,
    proportions: Proportions,
)
    requires
        rect.height > 0,
        !is_large_file(buffer_len, large_file_threshold_bytes),
    ensures
        ({
            let height = rect.height as usize;
            let size = proportions.size;
            let composite = composite_bar(cells, rect, theme, total, height, proportions);
            let buffer = buffer_bar(
                cells,
                rect,
                theme,
                buffer_len,
                large_file_threshold_bytes,
                total,
                proportions,
            );
            &&& row_size_ratio(height, total, height) == buffer_size_ratio(
                height,
                buffer_len,
                large_file_threshold_bytes,
                total,
            )
            &&& row_start_ratio(
                height,
                row_thumb_size(height, total, height, size) as usize,
                total,
                height,
                position,
            ) == buffer_start_ratio(
                height,
                buffer_len,
                large_file_threshold_bytes,
                top_byte,
                total,
                position,
                size,
            )
            &&& total > 0 ==> composite == buffer
            &&& total == 0 ==> composite == ((0int, 0int), cells) && buffer.0 == (
                0int,
                height as int,
            )
        }),
{
}

} // verus!
