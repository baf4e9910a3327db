//! Visual rows, and what scrollbars count.
use vstd::prelude::*;

use crate::view::buffer::{line_starts, offsets, strip_terminator, TextBuffer};
use crate::view::rows::{
    lemma_line_at_places, lemma_row_sums, CacheViewMode, PipelineVersions, VisualRowIndex,
    VisualRowIndexKey,
};
use crate::view::scrollbar::{
    compute_max_line_length, ensure_built, lemma_widest_of_lines, needs_visual_rows, rows_fit,
    scrollbar_line_counts, scrollbar_visual_row_counts, visual_row_index_key, EditorState,
    HorizontalScrollMetrics, Viewport, WrapLayout,
};
use crate::view::width::visual_width_with_tab_size;

verus! {

/// An index that was not built has no lines and no rows, and is built for nothing.
pub proof fn law_new_index_is_empty(
    index: VisualRowIndex,
    key: &VisualRowIndexKey,
    lines: usize,
    rows: u32,
    built: bool,
    byte: usize,
    found: (usize, usize),
)
    requires
        call_ensures(VisualRowIndex::new, (), index),
        call_ensures(VisualRowIndex::line_count, (&index,), lines),
        call_ensures(VisualRowIndex::total_rows, (&index,), rows),
        call_ensures(VisualRowIndex::is_built_for, (&index, key), built),
        call_ensures(VisualRowIndex::line_for_byte, (&index, byte), found),
    ensures
        lines == 0,
        rows == 0,
        !built,
        found == (0usize, 0usize),
{
}

/// A built index has a line for every line of the text and is built for its key
/// alone. The first line starts on row zero, each other one as many rows further on
/// as the line before it takes, and all rows are those of all lines.
pub proof fn law_index_stacks_the_lines(
    key: &VisualRowIndexKey,
    other: &VisualRowIndexKey,
    buffer: &TextBuffer,
    line_rows: &Vec<u32>,
    starts: Vec<usize>,
    index: VisualRowIndex,
    count: usize,
    total: u32,
    line: usize,
    row: u32,
    next_line: usize,
    next_row: u32,
    built: bool,
)
    requires
        rows_fit(buffer@, line_rows@),
        call_ensures(TextBuffer::line_start_offsets, (buffer,), starts),
        call_ensures(VisualRowIndex::build, (key, buffer, line_rows), index),
        call_ensures(VisualRowIndex::line_count, (&index,), count),
        call_ensures(VisualRowIndex::total_rows, (&index,), total),
        call_ensures(VisualRowIndex::line_first_row, (&index, line), row),
        call_ensures(VisualRowIndex::line_first_row, (&index, next_line), next_row),
        call_ensures(VisualRowIndex::is_built_for, (&index, other), built),
    ensures
        count == starts@.len(),
        count == line_rows@.len(),
        line == 0 ==> row == 0,
        next_line == line + 1 && line < count ==> next_row == row + line_rows@[line as int],
        line >= count ==> row == total,
        built <==> *other == *key,
{
    assert(offsets(starts@).len() == starts@.len());
    lemma_row_sums(line_rows@);
}

/// The line of a byte is the last that does not start behind it, and is given with
/// its start; it is the line that the text counts.
pub proof fn law_index_finds_the_line_of_a_byte(
    key: &VisualRowIndexKey,
    buffer: &TextBuffer,
    line_rows: &Vec<u32>,
    starts: Vec<usize>,
    index: VisualRowIndex,
    byte: usize,
    bytes: usize,
    line: usize,
    found: (usize, usize),
)
    requires
        rows_fit(buffer@, line_rows@),
        call_ensures(TextBuffer::len, (buffer,), bytes),
        call_ensures(TextBuffer::line_start_offsets, (buffer,), starts),
        call_ensures(TextBuffer::get_line_number, (buffer, byte), line),
        call_ensures(VisualRowIndex::build, (key, buffer, line_rows), index),
        call_ensures(VisualRowIndex::line_for_byte, (&index, byte), found),
    ensures
        found.0 < starts@.len(),
        found.1 == starts@[found.0 as int],
        starts@[found.0 as int] <= byte,
        found.0 + 1 < starts@.len() ==> byte < starts@[found.0 + 1],
        found.0 == line,
{
    lemma_line_at_places(*key, buffer@, line_rows@, byte);
    crate::view::rows::law_index_agrees_with_line_numbers(*key, buffer@, line_rows@, byte);
    assert(offsets(starts@) == line_starts(buffer@));
    assert(offsets(starts@)[found.0 as int] == starts@[found.0 as int]);
    if found.0 + 1 < starts@.len() {
        assert(offsets(starts@)[found.0 + 1] == starts@[found.0 + 1]);
    }
}

/// A view starts at the first byte, unscrolled and unwrapped, with its own width as
/// its grid; a state starts with its text and nothing laid out.
pub proof fn law_views_start_at_the_top(
    width: u16,
    height: u16,
    viewport: Viewport,
    text: &str,
    state: EditorState,
    lines: usize,
)
    requires
        call_ensures(Viewport::new, (width, height), viewport),
        call_ensures(EditorState::with_text, (text,), state),
        call_ensures(VisualRowIndex::line_count, (&state.visual_row_index,), lines),
    ensures
        viewport.width == width,
        viewport.height == height,
        viewport.top_byte == 0,
        viewport.top_view_line_offset == 0,
        viewport.left_column == 0,
        viewport.max_line_length_seen == 0,
        !viewport.line_wrap_enabled,
        !viewport.wrap_indent,
        !viewport.grid_wrap,
        viewport.grid_cols == width,
        state.buffer@ == text@,
        state.versions == (PipelineVersions {
            buffer: 0,
            soft_breaks: 0,
            conceals: 0,
            virtual_texts: 0,
        }),
        lines == 0,
{
}

/// A layout is known by all that decides it: the versions of what is laid out, how
/// the view wraps, and the columns of a row. On a terminal grid these are the grid's,
/// without a gutter and without indents; else those of a line's first row and of the
/// gutter together, two at least.
pub proof fn law_layout_is_known_by_what_decides_it(
    state: &EditorState,
    viewport: &Viewport,
    layout: &WrapLayout,
    key: VisualRowIndexKey,
)
    requires
        call_ensures(visual_row_index_key, (state, viewport, layout), key),
    ensures
        key.pipeline_inputs_version == state.versions,
        key.view_mode == CacheViewMode::Source,
        key.wrap_column is None,
        key.line_wrap_enabled == viewport.line_wrap_enabled,
        key.grid_wrap == viewport.grid_wrap,
        viewport.grid_wrap ==> {
            &&& key.effective_width == viewport.grid_cols as u32
            &&& key.gutter_width == 0
            &&& !key.hanging_indent
        },
        !viewport.grid_wrap ==> {
            let columns = layout.first_line_width + layout.gutter_width;
            &&& 2 <= columns <= usize::MAX ==> key.effective_width == (columns as usize) as u32
            &&& columns < 2 ==> key.effective_width == 2
            &&& columns > usize::MAX ==> key.effective_width == usize::MAX as u32
            &&& key.gutter_width == layout.gutter_width as u16
            &&& key.hanging_indent == layout.hanging_indent
        },
{
}

/// An index that was built for a layout is kept for it; else it is built for it from
/// the text and the rows of its lines. The text is left alone.
pub proof fn law_index_is_built_where_it_is_not(
    state: &mut EditorState,
    key: &VisualRowIndexKey,
    line_rows: &Vec<u32>,
    before: bool,
    after: bool,
    fresh: VisualRowIndex,
)
    requires
        rows_fit(old(state).buffer@, line_rows@),
        call_ensures(ensure_built, (state, key, line_rows), ()),
        call_ensures(VisualRowIndex::is_built_for, (&old(state).visual_row_index, key), before),
        call_ensures(VisualRowIndex::is_built_for, (&final(state).visual_row_index, key), after),
        call_ensures(VisualRowIndex::build, (key, &old(state).buffer, line_rows), fresh),
    ensures
        after,
        before ==> final(state).visual_row_index@ == old(state).visual_row_index@,
        !before ==> final(state).visual_row_index@ == fresh@,
        final(state).buffer == old(state).buffer,
        final(state).versions == old(state).versions,
{
}

/// Whether `counts` are the rows of an index as the view stands: one at least, and
/// the row at the top is that of its line and of what is scrolled away of it, no
/// further than the last.
pub open spec fn are_rows_at(
    counts: (usize, usize),
    total: u32,
    top_line_row: u32,
    viewport: Viewport,
) -> bool {
    let top = top_line_row + viewport.top_view_line_offset;
    &&& total > 0 ==> counts.0 == total
    &&& total == 0 ==> counts.0 == 1
    &&& top < counts.0 ==> counts.1 == top
    &&& top >= counts.0 ==> counts.1 == counts.0 - 1
}

/// Visual rows are counted in the index, which is then built for the layout of the
/// view; an empty buffer has one row and no index.
pub proof fn law_visual_rows_are_those_of_the_index(
    state: &mut EditorState,
    same: &mut EditorState,
    viewport: &Viewport,
    buffer_len: usize,
    layout: &WrapLayout,
    counts: (usize, usize),
    key: VisualRowIndexKey,
    total: u32,
    top: (usize, usize),
    top_line_row: u32,
)
    requires
        call_ensures(
            scrollbar_visual_row_counts,
            (state, viewport, buffer_len, layout),
            counts,
        ),
        call_ensures(visual_row_index_key, (&*old(state), viewport, layout), key),
        *old(same) == *old(state),
        call_ensures(ensure_built, (same, &key, &layout.line_rows), ()),
        call_ensures(VisualRowIndex::total_rows, (&final(state).visual_row_index,), total),
        call_ensures(
            VisualRowIndex::line_for_byte,
            (&final(state).visual_row_index, viewport.top_byte),
            top,
        ),
        call_ensures(
            VisualRowIndex::line_first_row,
            (&final(state).visual_row_index, top.0),
            top_line_row,
        ),
    ensures
        buffer_len == 0 ==> {
            &&& counts == (1usize, 0usize)
            &&& final(state).visual_row_index@ == old(state).visual_row_index@
        },
        buffer_len > 0 ==> {
            &&& final(state).visual_row_index@ == final(same).visual_row_index@
            &&& are_rows_at(counts, total, top_line_row, *viewport)
        },
        final(state).buffer == old(state).buffer,
        final(state).versions == old(state).versions,
{
}

/// A buffer is measured in visual rows exactly where it wraps, is no large file, and
/// has no more than five thousand lines and two mebibytes.
pub proof fn law_visual_rows_are_counted_where_it_is_cheap(
    state: &EditorState,
    viewport: &Viewport,
    threshold: u64,
    buffer_len: usize,
    last_byte: usize,
    last_line: usize,
    needed: bool,
)
    requires
        call_ensures(needs_visual_rows, (state, viewport, threshold, buffer_len), needed),
        buffer_len > 0 ==> last_byte == buffer_len - 1,
        call_ensures(TextBuffer::get_line_number, (&state.buffer, last_byte), last_line),
    ensures
        needed <==> viewport.line_wrap_enabled && buffer_len <= threshold && buffer_len <= 2 * 1024
            * 1024 && (buffer_len > 0 ==> last_line + 1 <= 5000),
{
}

/// A large file is not counted at all, and nothing is laid out for it. A buffer that
/// is measured in visual rows has the counts of those, and the index that goes with
/// them. Any other has as many lines as the last byte's line says, one where it is
/// empty; the line at the top is that of the top byte, the first where that lies
/// behind the end; and nothing is laid out for it.
pub proof fn law_counts_are_rows_or_lines(
    state: &mut EditorState,
    same: &mut EditorState,
    viewport: &Viewport,
    threshold: u64,
    buffer_len: usize,
    layout: &WrapLayout,
    counts: (usize, usize),
    needed: bool,
    rows: (usize, usize),
    last_byte: usize,
    last_line: usize,
    top_line: usize,
)
    requires
        call_ensures(
            scrollbar_line_counts,
            (state, viewport, threshold, buffer_len, layout),
            counts,
        ),
        call_ensures(
            needs_visual_rows,
            (&*old(state), viewport, threshold, buffer_len),
            needed,
        ),
        *old(same) == *old(state),
        call_ensures(scrollbar_visual_row_counts, (same, viewport, buffer_len, layout), rows),
        buffer_len > 0 ==> last_byte == buffer_len - 1,
        call_ensures(TextBuffer::get_line_number, (&old(state).buffer, last_byte), last_line),
        call_ensures(
            TextBuffer::get_line_number,
            (&old(state).buffer, viewport.top_byte),
            top_line,
        ),
    ensures
        buffer_len > threshold ==> counts == (0usize, 0usize),
        needed ==> {
            &&& counts == rows
            &&& final(state).visual_row_index@ == final(same).visual_row_index@
        },
        !needed ==> final(state).visual_row_index@ == old(state).visual_row_index@,
        !needed && buffer_len <= threshold ==> {
            &&& buffer_len == 0 ==> counts.0 == 1
            &&& buffer_len > 0 ==> counts.0 == last_line + 1
            &&& viewport.top_byte < buffer_len ==> counts.1 == top_line
            &&& viewport.top_byte >= buffer_len ==> counts.1 == 0
        },
        final(state).buffer == old(state).buffer,
        final(state).versions == old(state).versions,
{
}

/// Content is one column wider than its widest line, for the caret. It can be
/// scrolled as far as it is wider than what is seen of it.
pub proof fn law_scroll_width_has_one_caret_column(
    widest: usize,
    visible: usize,
    metrics: HorizontalScrollMetrics,
)
    requires
        call_ensures(HorizontalScrollMetrics::new, (widest, visible), metrics),
    ensures
        widest < usize::MAX ==> metrics.content_width == widest + 1,
        widest == usize::MAX ==> metrics.content_width == widest,
        metrics.visible_text_width == visible,
        metrics.content_width <= visible ==> metrics.max_scroll == 0,
        metrics.content_width > visible ==> metrics.max_scroll + visible
            == metrics.content_width,
{
}

/// A frame is as wide as the wider of the source and of what it shows, whichever of
/// the two that is.
pub proof fn law_frame_is_as_wide_as_the_wider(
    a: usize,
    b: usize,
    visible: usize,
    frame: HorizontalScrollMetrics,
    other_frame: HorizontalScrollMetrics,
    of_a: HorizontalScrollMetrics,
)
    requires
        call_ensures(HorizontalScrollMetrics::for_frame, (a, b, visible), frame),
        call_ensures(HorizontalScrollMetrics::for_frame, (b, a, visible), other_frame),
        call_ensures(HorizontalScrollMetrics::new, (a, visible), of_a),
        a >= b,
    ensures
        frame == of_a,
        other_frame == of_a,
{
}

/// Without content there is nothing to see and nothing to scroll.
pub proof fn law_no_metrics_are_zero(metrics: HorizontalScrollMetrics)
    requires
        call_ensures(<HorizontalScrollMetrics as Default>::default, (), metrics),
    ensures
        metrics.content_width == 0,
        metrics.visible_text_width == 0,
        metrics.max_scroll == 0,
{
}

/// The widest line is the widest of what was met before and of the lines that are
/// looked at: those from the line of the top byte on, each without its terminator,
/// as many as are visible and five more. Only that is noted in the view.
pub proof fn law_widest_line_is_the_widest_in_view(
    state: &EditorState,
    viewport: &mut Viewport,
    tab_size: usize,
    widest: usize,
    begin: usize,
    ends: Seq<usize>,
    lines: Seq<&[char]>,
    shown: Seq<&[char]>,
    widths: Seq<usize>,
)
    requires
        tab_size > 0,
        call_ensures(compute_max_line_length, (state, viewport, tab_size), widest),
        call_ensures(
            TextBuffer::line_begin_at,
            (&state.buffer, old(viewport).top_byte),
            begin,
        ),
        ends.len() == widths.len() + 1,
        lines.len() == widths.len(),
        shown.len() == widths.len(),
        ends[0] == begin,
        forall|i: int|
            0 <= i < widths.len() ==> {
                &&& #[trigger] ends[i] < state.buffer@.len()
                &&& call_ensures(TextBuffer::line_end_at, (&state.buffer, ends[i]), ends[i + 1])
                &&& call_ensures(
                    TextBuffer::slice,
                    (&state.buffer, ends[i], ends[i + 1]),
                    lines[i],
                )
                &&& call_ensures(strip_terminator, (lines[i],), shown[i])
                &&& call_ensures(
                    visual_width_with_tab_size,
                    (shown[i], 0usize, tab_size),
                    widths[i],
                )
            },
        widths.len() == old(viewport).height + 5 || widths.len() < old(viewport).height + 5
            && ends.last() >= state.buffer@.len(),
    ensures
        widest >= old(viewport).max_line_length_seen,
        forall|i: int| 0 <= i < widths.len() ==> #[trigger] widths[i] <= widest,
        widest == old(viewport).max_line_length_seen || exists|i: int|
            0 <= i < widths.len() && #[trigger] widths[i] == widest,
        *final(viewport) == (Viewport { max_line_length_seen: widest, ..*old(viewport) }),
{
    assert forall|i: int| 0 <= i < widths.len() implies {
        &&& 0 <= #[trigger] ends[i] < state.buffer@.len()
        &&& ends[i + 1] == crate::view::buffer::line_end(state.buffer@, ends[i] as int)
        &&& widths[i] == crate::view::width::visual_width(
            crate::view::buffer::without_terminator(
                state.buffer@.subrange(ends[i] as int, ends[i + 1] as int),
            ),
            0,
            tab_size,
        )
    } by {}
    lemma_widest_of_lines(
        state.buffer@,
        tab_size,
        old(viewport).max_line_length_seen as int,
        ends,
        widths,
        (old(viewport).height + 5) as nat,
    );
}

} // verus!
