//! What the scrollbars show: how much there is to scroll over, and where the
//! view stands in it.
use vstd::prelude::*;

use crate::view::buffer::{
    byte_len, law_line_numbers_grow, line_begin, line_end, line_number, line_starts,
    strip_terminator, without_terminator, TextBuffer,
};
use crate::view::rows::{
    index_of, lemma_all_lines_counted, lemma_line_at_grows, lemma_rows_cover_lines, line_at,
    rows_before, CacheViewMode, IndexView, PipelineVersions, VisualRowIndex, VisualRowIndexKey,
};
use crate::view::width::{visual_width, visual_width_with_tab_size};

verus! {

/// A wrapped buffer of more lines is measured in logical lines: wrapping every
/// line anew at every edit would stall the editor.
pub const MAX_WRAP_SCROLLBAR_LINES: usize = 5_000;

/// A wrapped buffer of more bytes is measured in logical lines, though its lines
/// be few.
pub const MAX_WRAP_SCROLLBAR_BYTES: usize = 2_097_152;

/// The window onto a buffer.
#[derive(Clone, Copy, Debug, PartialEq, Eq)]
pub struct Viewport {
    pub width: u16,
    pub height: u16,
    /// The byte at which the view starts.
    pub top_byte: usize,
    /// How many visual rows of the first line are scrolled away.
    pub top_view_line_offset: usize,
    /// How many columns are scrolled away.
    pub left_column: usize,
    pub line_wrap_enabled: bool,
    /// Whether continuation rows are indented like the row they continue.
    pub wrap_indent: bool,
    /// Whether rows break at exactly `grid_cols` columns, as on a terminal.
    pub grid_wrap: bool,
    pub grid_cols: usize,
    /// The widest line met so far.
    pub max_line_length_seen: usize,
}

impl Viewport {
    /// A view of this size at the start of a buffer, without wrapping.
    pub fn new(width: u16, height: u16) -> (viewport: Viewport)
        ensures
            viewport == (Viewport {
                width,
                height,
                top_byte: 0,
                top_view_line_offset: 0,
                left_column: 0,
                line_wrap_enabled: false,
                wrap_indent: false,
                grid_wrap: false,
                grid_cols: width as usize,
                max_line_length_seen: 0,
            }),
    {
        Viewport {
            width,
            height,
            top_byte: 0,
            top_view_line_offset: 0,
            left_column: 0,
            line_wrap_enabled: false,
            wrap_indent: false,
            grid_wrap: false,
            grid_cols: width as usize,
            max_line_length_seen: 0,
        }
    }
}

/// A buffer, the versions of what decides its layout, and the visual-row index
/// that is kept between frames.
pub struct EditorState {
    pub buffer: TextBuffer,
    pub versions: PipelineVersions,
    pub visual_row_index: VisualRowIndex,
}

impl EditorState {
    /// A state that holds `text`.
    pub fn with_text(text: &str) -> (state: EditorState)
        ensures
            state.buffer@ == text@,
            state.versions == (PipelineVersions {
                buffer: 0,
                soft_breaks: 0,
                conceals: 0,
                virtual_texts: 0,
            }),
            state.visual_row_index@ == IndexView::empty(),
    {
        EditorState {
            buffer: TextBuffer::from_text(text),
            versions: PipelineVersions { buffer: 0, soft_breaks: 0, conceals: 0, virtual_texts: 0 },
            visual_row_index: VisualRowIndex::new(),
        }
    }
}

/// What the layout of wrapped text gives for the current geometry: the width of
/// the gutter, the columns of a line's first row, whether continuation rows are
/// indented, and how many rows each logical line takes.
#[derive(Debug)]
pub struct WrapLayout {
    pub gutter_width: usize,
    pub first_line_width: usize,
    pub hanging_indent: bool,
    pub line_rows: Vec<u32>,
}

/// What the visual-row index must have been built for. A terminal grid breaks at
/// its own columns and has no gutter; other text breaks at the columns of a
/// line's first row, gutter included, and never at fewer than two.
pub open spec fn row_index_key(
    versions: PipelineVersions,
    viewport: Viewport,
    layout: WrapLayout,
) -> VisualRowIndexKey {
    let wrapped = layout.first_line_width + layout.gutter_width;
    let effective_width = if viewport.grid_wrap {
        viewport.grid_cols
    } else if wrapped > usize::MAX {
        usize::MAX
    } else if wrapped < 2 {
        2
    } else {
        wrapped as usize
    };
    VisualRowIndexKey {
        pipeline_inputs_version: versions,
        view_mode: CacheViewMode::Source,
        effective_width: effective_width as u32,
        gutter_width: if viewport.grid_wrap {
            0
        } else {
            layout.gutter_width as u16
        },
        wrap_column: None,
        hanging_indent: !viewport.grid_wrap && layout.hanging_indent,
        line_wrap_enabled: viewport.line_wrap_enabled,
        grid_wrap: viewport.grid_wrap,
    }
}

/// The index after it was brought up to date for `key`: kept where it was built
/// for that key, else built anew.
pub open spec fn up_to_date(
    index: IndexView,
    key: VisualRowIndexKey,
    text: Seq<char>,
    line_rows: Seq<u32>,
) -> IndexView {
    if index.key == Some(key) {
        index
    } else {
        index_of(key, text, line_rows)
    }
}

/// Whether `line_rows` gives a row count for every line of `text`, and all rows
/// can be numbered.
pub open spec fn rows_fit(text: Seq<char>, line_rows: Seq<u32>) -> bool {
    line_rows.len() == line_starts(text).len() && rows_before(line_rows, line_rows.len() as int)
        <= u32::MAX
}

/// The row at the top of the view: the first row of its first line, and how many
/// rows of that line are scrolled away.
pub open spec fn top_row(index: IndexView, viewport: Viewport) -> int {
    index.first_row(line_at(index.starts, viewport.top_byte)) + viewport.top_view_line_offset
}

/// The number of rows, at least one, and the row at the top, not behind the
/// last.
pub open spec fn row_counts(index: IndexView, viewport: Viewport) -> (int, int) {
    let total = if index.total_rows() == 0 {
        1
    } else {
        index.total_rows() as int
    };
    let top = top_row(index, viewport);
    (
        total,
        if top < total {
            top
        } else {
            total - 1
        },
    )
}

/// Brings the visual-row index up to date for `key`.
pub fn ensure_built(state: &mut EditorState, key: &VisualRowIndexKey, line_rows: &Vec<u32>)
    requires
        old(state).visual_row_index@.key == Some(*key) || rows_fit(old(state).buffer@, line_rows@),
    ensures
        final(state).buffer == old(state).buffer,
        final(state).versions == old(state).versions,
        final(state).visual_row_index@ == up_to_date(
            old(state).visual_row_index@,
            *key,
            old(state).buffer@,
            line_rows@,
        ),
        final(state).visual_row_index@.wf(),
{
    if !state.visual_row_index.is_built_for(key) {
        state.visual_row_index = VisualRowIndex::build(key, &state.buffer, line_rows);
    }
}

/// What the visual-row index must have been built for.
pub fn visual_row_index_key(state: &EditorState, viewport: &Viewport, layout: &WrapLayout) -> (key:
    VisualRowIndexKey)
    ensures
        key == row_index_key(state.versions, *viewport, *layout),
{
    let (effective_width, gutter_width, hanging_indent) = if viewport.grid_wrap {
        (viewport.grid_cols, 0usize, false)
    } else {
        let wrapped: usize = layout.first_line_width.saturating_add(layout.gutter_width);
        let width: usize = if wrapped < 2 {
            2
        } else {
            wrapped
        };
        (width, layout.gutter_width, layout.hanging_indent)
    };
    VisualRowIndexKey {
        pipeline_inputs_version: state.versions,
        view_mode: CacheViewMode::Source,
        effective_width: effective_width as u32,
        gutter_width: gutter_width as u16,
        wrap_column: None,
        hanging_indent,
        line_wrap_enabled: viewport.line_wrap_enabled,
        grid_wrap: viewport.grid_wrap,
    }
}

/// Whether row counts over `layout` can be had: its rows cover the buffer where
/// the index is to be built anew, and the top row can be numbered.
pub open spec fn rows_can_be_counted(
    state: EditorState,
    viewport: Viewport,
    layout: WrapLayout,
) -> bool {
    let key = row_index_key(state.versions, viewport, layout);
    let index = up_to_date(state.visual_row_index@, key, state.buffer@, layout.line_rows@);
    &&& state.visual_row_index@.key == Some(key) || rows_fit(state.buffer@, layout.line_rows@)
    &&& top_row(index, viewport) <= usize::MAX
}

/// The number of visual rows and the row at the top of the view. An empty buffer
/// has one row. The index is built only where it was not built for this layout
/// before: scrolling alone never walks the buffer again.
pub fn scrollbar_visual_row_counts(
    state: &mut EditorState,
    viewport: &Viewport,
    buffer_len: usize,
    layout: &WrapLayout,
) -> (counts: (usize, usize))
    requires
        buffer_len > 0 ==> rows_can_be_counted(*old(state), *viewport, *layout),
    ensures
        final(state).buffer == old(state).buffer,
        final(state).versions == old(state).versions,
        buffer_len == 0 ==> counts == (1usize, 0usize) && final(state).visual_row_index@ == old(
            state,
        ).visual_row_index@,
        buffer_len > 0 ==> ({
            let index = up_to_date(
                old(state).visual_row_index@,
                row_index_key(old(state).versions, *viewport, *layout),
                old(state).buffer@,
                layout.line_rows@,
            );
            &&& final(state).visual_row_index@ == index
            &&& index.wf()
            &&& (counts.0 as int, counts.1 as int) == row_counts(index, *viewport)
        }),
{
    if buffer_len == 0 {
        return (1, 0);
    }
    let key = visual_row_index_key(state, viewport, layout);
    ensure_built(state, &key, &layout.line_rows);
    let rows: usize = state.visual_row_index.total_rows() as usize;
    let total: usize = if rows == 0 {
        1
    } else {
        rows
    };
    let (line, _) = state.visual_row_index.line_for_byte(viewport.top_byte);
    let first: usize = state.visual_row_index.line_first_row(line) as usize;
    let top: usize = first + viewport.top_view_line_offset;
    (
        total,
        if top < total {
            top
        } else {
            total - 1
        },
    )
}

/// The number of logical lines of a buffer of `buffer_len` bytes.
pub open spec fn logical_lines(text: Seq<char>, buffer_len: usize) -> nat {
    if buffer_len > 0 {
        line_number(text, buffer_len - 1) + 1
    } else {
        1
    }
}

/// The logical line at the top of the view.
pub open spec fn logical_top(text: Seq<char>, viewport: Viewport, buffer_len: usize) -> nat {
    if viewport.top_byte < buffer_len {
        line_number(text, viewport.top_byte as int)
    } else {
        0
    }
}

/// Whether the buffer is too large to be measured at all.
pub open spec fn is_large_file(buffer_len: usize, large_file_threshold_bytes: u64) -> bool {
    buffer_len > large_file_threshold_bytes
}

/// Whether the buffer is measured in visual rows: it is wrapped, and neither its
/// lines nor its bytes are too many.
pub open spec fn counts_visual_rows(
    text: Seq<char>,
    viewport: Viewport,
    large_file_threshold_bytes: u64,
    buffer_len: usize,
) -> bool {
    &&& !is_large_file(buffer_len, large_file_threshold_bytes)
    &&& viewport.line_wrap_enabled
    &&& logical_lines(text, buffer_len) <= MAX_WRAP_SCROLLBAR_LINES
    &&& buffer_len <= MAX_WRAP_SCROLLBAR_BYTES
}

fn count_logical_lines(state: &EditorState, buffer_len: usize) -> (lines: usize)
    ensures
        lines == logical_lines(state.buffer@, buffer_len),
{
    if buffer_len > 0 {
        state.buffer.get_line_number(buffer_len - 1) + 1
    } else {
        1
    }
}

/// Whether the buffer is measured in visual rows. Where it is not, its layout is
/// not needed.
pub fn needs_visual_rows(
    state: &EditorState,
    viewport: &Viewport,
    large_file_threshold_bytes: u64,
    buffer_len: usize,
) -> (needed: bool)
    ensures
        needed == counts_visual_rows(
            state.buffer@,
            *viewport,
            large_file_threshold_bytes,
            buffer_len,
        ),
{
    if buffer_len as u64 > large_file_threshold_bytes {
        return false;
    }
    viewport.line_wrap_enabled && count_logical_lines(state, buffer_len) <= MAX_WRAP_SCROLLBAR_LINES
        && buffer_len <= MAX_WRAP_SCROLLBAR_BYTES
}

/// The number of lines and the line at the top of the view: none of either for a
/// large file, visual rows where the text is wrapped, logical lines else. A
/// wrapped buffer that is too large for visual rows is measured in logical lines
/// too, and its index is left alone.
pub fn scrollbar_line_counts(
    state: &mut EditorState,
    viewport: &Viewport,
    large_file_threshold_bytes: u64,
    buffer_len: usize,
    layout: &WrapLayout,
) -> (counts: (usize, usize))
    requires
        buffer_len > 0 && counts_visual_rows(
            old(state).buffer@,
            *viewport,
            large_file_threshold_bytes,
            buffer_len,
        ) ==> rows_can_be_counted(*old(state), *viewport, *layout),
    ensures
        final(state).buffer == old(state).buffer,
        final(state).versions == old(state).versions,
        if is_large_file(buffer_len, large_file_threshold_bytes) {
            &&& counts == (0usize, 0usize)
            &&& final(state).visual_row_index@ == old(state).visual_row_index@
        } else if counts_visual_rows(
            old(state).buffer@,
            *viewport,
            large_file_threshold_bytes,
            buffer_len,
        ) {
            if buffer_len == 0 {
                &&& counts == (1usize, 0usize)
                &&& final(state).visual_row_index@ == old(state).visual_row_index@
            } else {
                let index = up_to_date(
                    old(state).visual_row_index@,
                    row_index_key(old(state).versions, *viewport, *layout),
                    old(state).buffer@,
                    layout.line_rows@,
                );
                &&& final(state).visual_row_index@ == index
                &&& index.wf()
                &&& (counts.0 as int, counts.1 as int) == row_counts(index, *viewport)
            }
        } else {
            &&& counts.0 == logical_lines(old(state).buffer@, buffer_len)
            &&& counts.1 == logical_top(old(state).buffer@, *viewport, buffer_len)
            &&& final(state).visual_row_index@ == old(state).visual_row_index@
        },
{
    if buffer_len as u64 > large_file_threshold_bytes {
        return (0, 0);
    }
    let total_lines: usize = count_logical_lines(state, buffer_len);
    if viewport.line_wrap_enabled && total_lines <= MAX_WRAP_SCROLLBAR_LINES && buffer_len
        <= MAX_WRAP_SCROLLBAR_BYTES {
        return scrollbar_visual_row_counts(state, viewport, buffer_len, layout);
    }
    let top_line: usize = if viewport.top_byte < buffer_len {
        state.buffer.get_line_number(viewport.top_byte)
    } else {
        0
    };
    (total_lines, top_line)
}

/// Horizontal geometry without wrapping: the columns of the content with one
/// more for the caret behind a line's end, the columns that are visible, and how
/// far the view can scroll.
#[derive(Clone, Copy, Debug, PartialEq, Eq, Structural)]
pub struct HorizontalScrollMetrics {
    pub content_width: usize,
    pub visible_text_width: usize,
    pub max_scroll: usize,
}

impl Default for HorizontalScrollMetrics {
    fn default() -> (metrics: Self)
        ensures
            metrics == (HorizontalScrollMetrics {
                content_width: 0,
                visible_text_width: 0,
                max_scroll: 0,
            }),
    {
        HorizontalScrollMetrics { content_width: 0, visible_text_width: 0, max_scroll: 0 }
    }
}

/// The geometry of content whose widest line takes `max_visual_line_width`
/// columns.
pub open spec fn scroll_metrics(
    max_visual_line_width: usize,
    visible_text_width: usize,
) -> HorizontalScrollMetrics {
    let content_width = if max_visual_line_width < usize::MAX {
        (max_visual_line_width + 1) as usize
    } else {
        usize::MAX
    };
    HorizontalScrollMetrics {
        content_width,
        visible_text_width,
        max_scroll: if content_width > visible_text_width {
            (content_width - visible_text_width) as usize
        } else {
            0
        },
    }
}

/// The larger of two widths.
pub open spec fn wider(a: usize, b: usize) -> usize {
    if a < b {
        b
    } else {
        a
    }
}

impl HorizontalScrollMetrics {
    /// The geometry of content whose widest line takes `max_visual_line_width`
    /// columns.
    pub fn new(max_visual_line_width: usize, visible_text_width: usize) -> (metrics: Self)
        ensures
            metrics == scroll_metrics(max_visual_line_width, visible_text_width),
    {
        let content_width: usize = max_visual_line_width.saturating_add(1);
        HorizontalScrollMetrics {
            content_width,
            visible_text_width,
            max_scroll: content_width.saturating_sub(visible_text_width),
        }
    }

    /// The geometry of one frame: the wider of what the source needs and of what
    /// this frame shows counts.
    pub fn for_frame(
        source_max_visual_width: usize,
        canonical_max_visual_width: usize,
        visible_text_width: usize,
    ) -> (metrics: Self)
        ensures
            metrics == scroll_metrics(
                wider(source_max_visual_width, canonical_max_visual_width),
                visible_text_width,
            ),
    {
        let widest: usize = if source_max_visual_width < canonical_max_visual_width {
            canonical_max_visual_width
        } else {
            source_max_visual_width
        };
        Self::new(widest, visible_text_width)
    }
}

/// The widest of `seen` and of the first `lines` lines from character `from` on.
pub open spec fn widest_line(
    text: Seq<char>,
    from: int,
    lines: nat,
    tab_size: usize,
    seen: int,
) -> int
    decreases lines,
{
    if lines == 0 || from >= text.len() {
        seen
    } else {
        let end = line_end(text, from);
        let width = visual_width(without_terminator(text.subrange(from, end)), 0, tab_size);
        widest_line(
            text,
            end,
            (lines - 1) as nat,
            tab_size,
            if width > seen {
                width
            } else {
                seen
            },
        )
    }
}

/// The widest line met so far, after the visible lines and a few more were
/// looked at.
pub open spec fn max_line_seen(text: Seq<char>, viewport: Viewport, tab_size: usize) -> int {
    widest_line(
        text,
        line_begin(text, viewport.top_byte as int),
        (viewport.height + 5) as nat,
        tab_size,
        viewport.max_line_length_seen as int,
    )
}

/// Looks at the visible lines and a few more, and gives the widest line met so
/// far, which it notes in the viewport. Line terminators take no columns.
pub fn compute_max_line_length(state: &EditorState, viewport: &mut Viewport, tab_size: usize) -> (
    widest: usize)
    requires
        tab_size > 0,
    ensures
        widest == max_line_seen(state.buffer@, *old(viewport), tab_size),
        *final(viewport) == (Viewport { max_line_length_seen: widest, ..*old(viewport) }),
{
    if state.buffer.is_empty() {
        return viewport.max_line_length_seen;
    }
    let visible_lines: usize = viewport.height as usize + 5;
    let ghost text = state.buffer@;
    let ghost goal = max_line_seen(text, *viewport, tab_size);
    let mut from: usize = state.buffer.line_begin_at(viewport.top_byte);
    let mut lines_scanned: usize = 0;
    let mut widest: usize = viewport.max_line_length_seen;
    let size: usize = state.buffer.char_count();
    while lines_scanned < visible_lines && from < size
        invariant
            lines_scanned <= visible_lines,
            from <= size,
            size == text.len(),
            text == state.buffer@,
            tab_size > 0,
            goal == widest_line(
                text,
                from as int,
                (visible_lines - lines_scanned) as nat,
                tab_size,
                widest as int,
            ),
        decreases visible_lines - lines_scanned,
    {
        let end: usize = state.buffer.line_end_at(from);
        let line = strip_terminator(state.buffer.slice(from, end));
        let width: usize = visual_width_with_tab_size(line, 0, tab_size);
        if width > widest {
            widest = width;
        }
        from = end;
        lines_scanned += 1;
    }
    viewport.max_line_length_seen = widest;
    widest
}

// ---------------------------------------------------------------------------
// Laws
// ---------------------------------------------------------------------------

/// The top line lies among the lines: the scrollbar never points behind its end.
pub proof fn law_top_line_is_a_line(text: Seq<char>, viewport: Viewport, buffer_len: usize)
    ensures
        logical_top(text, viewport, buffer_len) < logical_lines(text, buffer_len),
{
    if viewport.top_byte < buffer_len {
        law_line_numbers_grow(text, viewport.top_byte as int, buffer_len - 1);
    }
}

/// The top row lies among the rows.
pub proof fn law_top_row_is_a_row(index: IndexView, viewport: Viewport)
    ensures
        0 <= row_counts(index, viewport).1 < row_counts(index, viewport).0,
{
}

/// Scrolling down never moves the top row up.
pub proof fn law_top_row_follows_the_view(index: IndexView, a: Viewport, b: Viewport)
    requires
        index.wf(),
        a.top_byte <= b.top_byte,
        a.top_view_line_offset <= b.top_view_line_offset,
    ensures
        row_counts(index, a).1 <= row_counts(index, b).1,
{
    lemma_line_at_grows(index.starts, a.top_byte, b.top_byte);
}

/// Wrapping only adds rows: where every line takes at least one row, a buffer has
/// at least as many rows as logical lines.
pub proof fn law_wrapping_adds_rows(
    key: VisualRowIndexKey,
    text: Seq<char>,
    line_rows: Seq<u32>,
    buffer_len: usize,
)
    requires
        buffer_len == byte_len(text),
        rows_fit(text, line_rows),
        forall|i: int| 0 <= i < line_rows.len() ==> line_rows[i] >= 1,
    ensures
        logical_lines(text, buffer_len) <= index_of(key, text, line_rows).total_rows(),
{
    lemma_all_lines_counted(text);
    lemma_rows_cover_lines(line_rows, line_rows.len() as int);
    if buffer_len > 0 {
        law_line_numbers_grow(text, buffer_len - 1, buffer_len as int);
    }
}

/// An index that is up to date stays as it is: asking again for the same layout
/// builds nothing, wherever the view has scrolled to.
pub proof fn law_index_is_reused(
    index: IndexView,
    key: VisualRowIndexKey,
    text: Seq<char>,
    line_rows: Seq<u32>,
    later_text: Seq<char>,
    later_rows: Seq<u32>,
)
    ensures
        up_to_date(up_to_date(index, key, text, line_rows), key, later_text, later_rows)
            == up_to_date(index, key, text, line_rows),
{
}

/// Scrolling changes no part of the key.
pub proof fn law_scrolling_keeps_the_key(
    versions: PipelineVersions,
    a: Viewport,
    b: Viewport,
    layout: WrapLayout,
)
    requires
        b == (Viewport {
            top_byte: b.top_byte,
            top_view_line_offset: b.top_view_line_offset,
            left_column: b.left_column,
            ..a
        }),
    ensures
        row_index_key(versions, a, layout) == row_index_key(versions, b, layout),
{
}

/// A wrapped buffer with more lines or more bytes than the bounds is measured in
/// logical lines.
pub proof fn law_large_wrapped_buffers_are_not_laid_out(
    text: Seq<char>,
    viewport: Viewport,
    large_file_threshold_bytes: u64,
    buffer_len: usize,
)
    requires
        logical_lines(text, buffer_len) > MAX_WRAP_SCROLLBAR_LINES || buffer_len
            > MAX_WRAP_SCROLLBAR_BYTES,
    ensures
        !counts_visual_rows(text, viewport, large_file_threshold_bytes, buffer_len),
{
}

/// The widest of some lines is one of them, or what was seen before, and no line is
/// wider.
pub proof fn lemma_widest_of_lines(
    text: Seq<char>,
    tab_size: usize,
    seen: int,
    ends: Seq<usize>,
    widths: Seq<usize>,
    lines: nat,
)
    requires
        ends.len() == widths.len() + 1,
        forall|i: int|
            0 <= i < widths.len() ==> {
                &&& 0 <= #[trigger] ends[i] < text.len()
                &&& ends[i + 1] == line_end(text, ends[i] as int)
                &&& widths[i] == visual_width(
                    without_terminator(text.subrange(ends[i] as int, ends[i + 1] as int)),
                    0,
                    tab_size,
                )
            },
        widths.len() == lines || widths.len() < lines && ends.last() >= text.len(),
    ensures
        ({
            let widest = widest_line(text, ends[0] as int, lines, tab_size, seen);
            &&& widest >= seen
            &&& forall|i: int| 0 <= i < widths.len() ==> #[trigger] widths[i] <= widest
            &&& widest == seen || exists|i: int|
                0 <= i < widths.len() && #[trigger] widths[i] == widest
        }),
    decreases widths.len(),
{
    let widest = widest_line(text, ends[0] as int, lines, tab_size, seen);
    if widths.len() > 0 {
        let from = ends[0] as int;
        assert(ends[1] == line_end(text, from));
        let wider_seen = if widths[0] > seen {
            widths[0] as int
        } else {
            seen
        };
        let more_ends = ends.skip(1);
        let more_widths = widths.skip(1);
        assert forall|i: int| 0 <= i < more_widths.len() implies {
            &&& 0 <= #[trigger] more_ends[i] < text.len()
            &&& more_ends[i + 1] == line_end(text, more_ends[i] as int)
            &&& more_widths[i] == visual_width(
                without_terminator(
                    text.subrange(more_ends[i] as int, more_ends[i + 1] as int),
                ),
                0,
                tab_size,
            )
        } by {
            assert(more_ends[i] == ends[i + 1]);
            assert(more_ends[i + 1] == ends[i + 2]);
            assert(more_widths[i] == widths[i + 1]);
        }
        lemma_widest_of_lines(
            text,
            tab_size,
            wider_seen,
            more_ends,
            more_widths,
            (lines - 1) as nat,
        );
        assert(widest == widest_line(
            text,
            more_ends[0] as int,
            (lines - 1) as nat,
            tab_size,
            wider_seen,
        ));
        assert forall|i: int| 0 <= i < widths.len() implies #[trigger] widths[i] <= widest by {
            if i > 0 {
                assert(more_widths[i - 1] == widths[i]);
            }
        }
        if widest != seen {
            if widest == wider_seen {
                assert(widths[0] == widest);
            } else {
                let i = choose|i: int|
                    0 <= i < more_widths.len() && #[trigger] more_widths[i] == widest;
                assert(widths[i + 1] == widest);
            }
        }
    }
}

/// The widest line only grows between resets: a wide line stays scrollable after
/// it left the view.
pub proof fn law_widest_line_never_shrinks(
    text: Seq<char>,
    from: int,
    lines: nat,
    tab_size: usize,
    seen: int,
)
    ensures
        seen <= widest_line(text, from, lines, tab_size, seen),
    decreases lines,
{
    if lines > 0 && from < text.len() {
        let end = line_end(text, from);
        let width = visual_width(without_terminator(text.subrange(from, end)), 0, tab_size);
        law_widest_line_never_shrinks(
            text,
            end,
            (lines - 1) as nat,
            tab_size,
            if width > seen {
                width
            } else {
                seen
            },
        );
    }
}

/// Looking again at lines that were already looked at changes nothing.
pub proof fn law_second_look_changes_nothing(
    text: Seq<char>,
    from: int,
    lines: nat,
    tab_size: usize,
    seen: int,
    again: int,
)
    requires
        widest_line(text, from, lines, tab_size, seen) <= again,
    ensures
        widest_line(text, from, lines, tab_size, again) == again,
    decreases lines,
{
    if lines > 0 && from < text.len() {
        let end = line_end(text, from);
        let width = visual_width(without_terminator(text.subrange(from, end)), 0, tab_size);
        let wider_seen = if width > seen {
            width
        } else {
            seen
        };
        law_widest_line_never_shrinks(text, end, (lines - 1) as nat, tab_size, wider_seen);
        law_second_look_changes_nothing(
            text,
            end,
            (lines - 1) as nat,
            tab_size,
            wider_seen,
            again,
        );
    }
}

/// The widest line that a viewport has met stays scrollable, wherever the view
/// moves and whatever becomes of the text; and where neither moves nor changes, it
/// stays what it is.
pub proof fn law_widest_line_is_kept(
    text: Seq<char>,
    viewport: Viewport,
    tab_size: usize,
    widest: usize,
    later_text: Seq<char>,
    later: Viewport,
)
    requires
        widest == max_line_seen(text, viewport, tab_size),
        later.max_line_length_seen == widest,
    ensures
        viewport.max_line_length_seen <= widest <= max_line_seen(later_text, later, tab_size),
        later_text == text && later == (Viewport { max_line_length_seen: widest, ..viewport })
            ==> max_line_seen(later_text, later, tab_size) == widest,
{
    let lines = (viewport.height + 5) as nat;
    let from = line_begin(text, viewport.top_byte as int);
    let seen = viewport.max_line_length_seen as int;
    law_widest_line_never_shrinks(text, from, lines, tab_size, seen);
    law_widest_line_never_shrinks(
        later_text,
        line_begin(later_text, later.top_byte as int),
        (later.height + 5) as nat,
        tab_size,
        widest as int,
    );
    law_second_look_changes_nothing(text, from, lines, tab_size, seen, widest as int);
}

/// A frame that shows nothing wider than the source has the geometry of the
/// source: widening is gone as soon as its cause is.
pub proof fn law_frame_width_is_not_kept(source: usize, canonical: usize, visible: usize)
    requires
        canonical <= source,
    ensures
        scroll_metrics(wider(source, canonical), visible) == scroll_metrics(source, visible),
{
}

/// The view can scroll exactly so far that the last column of the content comes
/// into view.
pub proof fn law_scroll_reaches_the_end(widest: usize, visible: usize)
    requires
        widest < usize::MAX,
    ensures
        ({
            let m = scroll_metrics(widest, visible);
            &&& m.content_width == widest + 1
            &&& m.content_width <= m.max_scroll + visible
            &&& m.max_scroll > 0 ==> m.max_scroll + visible == m.content_width
        }),
{
}

} // verus!
