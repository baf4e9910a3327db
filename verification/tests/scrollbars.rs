//! Line counts, row counts, widths, and thumbs.
use fresh_editor::view::buffer::TextBuffer;
use fresh_editor::view::paint::{Rect, Theme};
use fresh_editor::view::rows::VisualRowIndex;
use fresh_editor::view::scrollbar::{
    compute_max_line_length, needs_visual_rows, scrollbar_line_counts,
    scrollbar_visual_row_counts, visual_row_index_key, EditorState, HorizontalScrollMetrics,
    Viewport, WrapLayout, MAX_WRAP_SCROLLBAR_BYTES, MAX_WRAP_SCROLLBAR_LINES,
};
use fresh_editor::view::thumb::{
    composite_size_ratio, composite_start_ratio, horizontal_size_ratio, horizontal_start_ratio,
    render_composite_scrollbar, render_horizontal_scrollbar, render_scrollbar,
    scrollbar_size_ratio, scrollbar_start_ratio, Proportions, Ratio,
};
use fresh_editor::view::width::visual_width_with_tab_size;
use ratatui::buffer::Buffer;
use ratatui::style::{Color, Modifier};

const LARGE_FILE_THRESHOLD_BYTES: u64 = 10 * 1024 * 1024;

/// Each line is long enough to wrap to two visual rows at width 40.
fn state_with_wrapping_lines(n: usize) -> EditorState {
    let line = "the quick brown fox jumps over the lazy dog and keeps going\n";
    EditorState::with_text(&line.repeat(n))
}

fn narrow_wrapped_viewport() -> Viewport {
    let mut vp = Viewport::new(40, 24);
    vp.line_wrap_enabled = true;
    vp
}

/// Two rows for each of `n` full lines and one for the empty line behind them.
fn two_rows_each(n: usize) -> WrapLayout {
    let mut line_rows = vec![2u32; n];
    line_rows.push(1);
    WrapLayout { gutter_width: 5, first_line_width: 35, hanging_indent: false, line_rows }
}

fn theme() -> Theme {
    Theme { scrollbar_track_fg: Color::DarkGray, scrollbar_thumb_fg: Color::Rgb(1, 2, 3) }
}

fn filled(width: u16, height: u16) -> Buffer {
    let mut buf = Buffer::empty(ratatui::layout::Rect::new(0, 0, width, height));
    for y in 0..height {
        for x in 0..width {
            let cell = buf.cell_mut((x, y)).unwrap();
            cell.set_symbol("#").set_fg(Color::Green).set_bg(Color::Red);
            cell.modifier = Modifier::BOLD;
        }
    }
    buf
}

#[test]
fn local_source_width_matches_renderer_tab_size_and_excludes_terminators() {
    for (tab_size, expected_text_width) in [(2, 5), (4, 7), (8, 11)] {
        let mut state = EditorState::with_text("a\t界\x1b[31mx\na\t界\x1b[31mx\r\n");
        let mut viewport = Viewport::new(80, 1);
        let source_max = compute_max_line_length(&mut state, &mut viewport, tab_size);
        assert_eq!(source_max, expected_text_width, "tab_size={tab_size}");
        assert_eq!(
            HorizontalScrollMetrics::new(source_max, 0).content_width,
            expected_text_width + 1,
            "exactly one EOL caret cell for tab_size={tab_size}"
        );
    }
}

#[test]
fn horizontal_metrics_share_effective_text_width_for_compose_and_gutter() {
    let metrics = HorizontalScrollMetrics::new(40, 30usize.saturating_sub(4));
    assert_eq!(metrics.visible_text_width, 26);
    assert_eq!(metrics.max_scroll, 15);
}

#[test]
fn small_wrapped_buffer_uses_exact_visual_rows() {
    let mut state = state_with_wrapping_lines(100);
    let vp = narrow_wrapped_viewport();
    let buffer_len = state.buffer.len();
    assert!(needs_visual_rows(&state, &vp, LARGE_FILE_THRESHOLD_BYTES, buffer_len));
    let (total, _) = scrollbar_line_counts(
        &mut state,
        &vp,
        LARGE_FILE_THRESHOLD_BYTES,
        buffer_len,
        &two_rows_each(100),
    );
    assert!(
        total > 100,
        "small wrapped buffer should report wrapped-row count (>100), got {total}"
    );
    assert!(
        state.visual_row_index.line_count() > 0,
        "small wrapped buffer should build the visual-row index"
    );
}

#[test]
fn large_wrapped_buffer_skips_visual_row_scan() {
    let n = MAX_WRAP_SCROLLBAR_LINES + 1;
    let mut state = state_with_wrapping_lines(n);
    let vp = narrow_wrapped_viewport();
    let buffer_len = state.buffer.len();
    assert!(
        buffer_len <= MAX_WRAP_SCROLLBAR_BYTES,
        "test buffer should trip the line bound, not the byte bound"
    );
    assert!(!needs_visual_rows(&state, &vp, LARGE_FILE_THRESHOLD_BYTES, buffer_len));
    let (total, _) = scrollbar_line_counts(
        &mut state,
        &vp,
        LARGE_FILE_THRESHOLD_BYTES,
        buffer_len,
        &two_rows_each(0),
    );
    assert_eq!(
        total, n,
        "large wrapped buffer should use the logical-line count, not wrapped rows"
    );
    assert_eq!(
        state.visual_row_index.line_count(),
        0,
        "large wrapped buffer must not build the O(all-lines) visual-row index"
    );
}

#[test]
fn long_wrapped_lines_trip_the_byte_bound() {
    let mut state = EditorState::with_text(&"x".repeat(MAX_WRAP_SCROLLBAR_BYTES + 1));
    let vp = narrow_wrapped_viewport();
    let buffer_len = state.buffer.len();
    let counts = scrollbar_line_counts(
        &mut state,
        &vp,
        LARGE_FILE_THRESHOLD_BYTES,
        buffer_len,
        &two_rows_each(0),
    );
    assert_eq!(counts, (1, 0));
    assert_eq!(state.visual_row_index.line_count(), 0);
}

#[test]
fn large_files_are_not_counted() {
    let mut state = EditorState::with_text("a\nb\nc\n");
    let vp = Viewport::new(40, 24);
    let layout = two_rows_each(0);
    assert_eq!(scrollbar_line_counts(&mut state, &vp, 5, 6, &layout), (0, 0));
    assert_eq!(scrollbar_line_counts(&mut state, &vp, 6, 6, &layout), (3, 0));
}

#[test]
fn logical_counts_follow_the_top_byte() {
    let mut state = EditorState::with_text("a\n界\nc");
    let layout = two_rows_each(0);
    let mut vp = Viewport::new(40, 24);
    let len = state.buffer.len();
    assert_eq!(len, 7);
    for (top_byte, line) in [(0, 0), (1, 0), (2, 1), (5, 1), (6, 2), (7, 0), (99, 0)] {
        vp.top_byte = top_byte;
        let counts =
            scrollbar_line_counts(&mut state, &vp, LARGE_FILE_THRESHOLD_BYTES, len, &layout);
        assert_eq!(counts, (3, line));
    }
    let mut empty = EditorState::with_text("");
    assert_eq!(
        scrollbar_line_counts(&mut empty, &vp, LARGE_FILE_THRESHOLD_BYTES, 0, &layout),
        (1, 0)
    );
    vp.line_wrap_enabled = true;
    assert_eq!(scrollbar_visual_row_counts(&mut empty, &vp, 0, &layout), (1, 0));
    assert_eq!(empty.visual_row_index.line_count(), 0);
}

#[test]
fn visual_rows_count_wrapped_segments() {
    let mut state = EditorState::with_text("aaaa\nbb\ncccccc");
    let mut vp = narrow_wrapped_viewport();
    let layout = WrapLayout {
        gutter_width: 2,
        first_line_width: 2,
        hanging_indent: true,
        line_rows: vec![2, 1, 3],
    };
    for (top_byte, offset, row) in [(0, 0, 0), (4, 1, 1), (5, 0, 2), (8, 0, 3), (9, 2, 5), (9, 9, 5)] {
        vp.top_byte = top_byte;
        vp.top_view_line_offset = offset;
        assert_eq!(scrollbar_visual_row_counts(&mut state, &vp, 14, &layout), (6, row));
    }
    assert_eq!(state.visual_row_index.line_count(), 3);
    assert_eq!(state.visual_row_index.line_first_row(2), 3);
}

#[test]
fn the_row_index_is_kept_until_its_key_changes() {
    let mut state = EditorState::with_text("aaaa\nbb");
    let mut vp = narrow_wrapped_viewport();
    let layout = |rows: Vec<u32>| WrapLayout {
        gutter_width: 0,
        first_line_width: 0,
        hanging_indent: false,
        line_rows: rows,
    };
    assert_eq!(scrollbar_visual_row_counts(&mut state, &vp, 7, &layout(vec![2, 1])), (3, 0));
    vp.top_byte = 5;
    assert_eq!(scrollbar_visual_row_counts(&mut state, &vp, 7, &layout(vec![9, 9])), (3, 2));
    state.versions.buffer = 1;
    assert_eq!(scrollbar_visual_row_counts(&mut state, &vp, 7, &layout(vec![9, 9])), (18, 9));
    let key = visual_row_index_key(&state, &vp, &layout(vec![]));
    assert_eq!(key.effective_width, 2);
    assert!(state.visual_row_index.is_built_for(&key));
    vp.grid_wrap = true;
    vp.grid_cols = 80;
    let key = visual_row_index_key(&state, &vp, &two_rows_each(0));
    assert_eq!((key.effective_width, key.gutter_width, key.hanging_indent), (80, 0, false));
    vp.grid_wrap = false;
    let key = visual_row_index_key(&state, &vp, &two_rows_each(0));
    assert_eq!((key.effective_width, key.gutter_width), (40, 5));
    assert!(!VisualRowIndex::new().is_built_for(&key));
}

#[test]
fn lines_start_behind_line_feeds() {
    let buffer = TextBuffer::from_text("ab\n\ncd\n");
    assert_eq!(buffer.line_start_offsets(), vec![0, 3, 4, 7]);
    assert_eq!(buffer.get_line_number(2), 0);
    assert_eq!(buffer.get_line_number(3), 1);
    assert_eq!(buffer.get_line_number(100), 3);
    assert!(!buffer.is_empty());
    assert!(TextBuffer::from_text("").is_empty());
}

#[test]
fn the_widest_line_is_remembered() {
    let state = EditorState::with_text("0123456789\nab\nabc\n");
    let mut vp = Viewport::new(80, 1);
    vp.top_byte = 11;
    assert_eq!(compute_max_line_length(&state, &mut vp, 4), 3);
    vp.top_byte = 5;
    assert_eq!(compute_max_line_length(&state, &mut vp, 4), 10);
    vp.top_byte = 14;
    assert_eq!(compute_max_line_length(&state, &mut vp, 4), 10);
    assert_eq!(vp.max_line_length_seen, 10);
    let empty = EditorState::with_text("");
    assert_eq!(compute_max_line_length(&empty, &mut vp, 4), 10);
}

#[test]
fn a_second_look_finds_nothing_wider() {
    let state = EditorState::with_text("0123456789\nab\n");
    let mut vp = Viewport::new(80, 4);
    assert_eq!(compute_max_line_length(&state, &mut vp, 4), 10);
    let before = vp;
    assert_eq!(compute_max_line_length(&state, &mut vp, 4), 10);
    assert_eq!(vp, before);
}

#[test]
fn only_visible_lines_and_a_margin_are_scanned() {
    let mut text = "a\n".repeat(7);
    text.push_str("wide line\n");
    let state = EditorState::with_text(&text);
    let mut vp = Viewport::new(80, 2);
    assert_eq!(compute_max_line_length(&state, &mut vp, 4), 1);
    vp.height = 3;
    assert_eq!(compute_max_line_length(&state, &mut vp, 4), 9);
}

#[test]
fn terminators_take_no_columns() {
    for (text, width) in [("ab\r\n", 2), ("ab\r", 2), ("ab\n", 2), ("ab", 2), ("\n", 0), ("\r\r\n", 0)] {
        let state = EditorState::with_text(text);
        let mut vp = Viewport::new(80, 1);
        assert_eq!(compute_max_line_length(&state, &mut vp, 4), width, "{:?}", text);
    }
}

#[test]
fn widths_count_cells() {
    let width = |text: &str, start: usize, tab: usize| {
        let chars: Vec<char> = text.chars().collect();
        visual_width_with_tab_size(&chars, start, tab)
    };
    assert_eq!(width("abc", 0, 4), 3);
    assert_eq!(width("界界", 0, 4), 4);
    assert_eq!(width("e\u{301}", 0, 4), 1);
    assert_eq!(width("\t", 3, 4), 1);
    assert_eq!(width("\t\t", 0, 8), 16);
    assert_eq!(width("\x1b[1;31mred\x1b[0m", 0, 4), 3);
}

#[test]
fn frame_widths_are_not_kept() {
    let wide = HorizontalScrollMetrics::for_frame(40, 60, 26);
    assert_eq!(wide, HorizontalScrollMetrics::new(60, 26));
    assert_eq!(wide.max_scroll, 35);
    let narrow = HorizontalScrollMetrics::for_frame(40, 12, 26);
    assert_eq!(narrow, HorizontalScrollMetrics::new(40, 26));
    assert_eq!(HorizontalScrollMetrics::new(10, 11).max_scroll, 0);
    assert_eq!(HorizontalScrollMetrics::new(usize::MAX, 1).content_width, usize::MAX);
    assert_eq!(
        HorizontalScrollMetrics::default(),
        HorizontalScrollMetrics { content_width: 0, visible_text_width: 0, max_scroll: 0 }
    );
}

#[test]
fn four_fifths_agree_with_the_float_limit() {
    for height in 0..=u16::MAX {
        let float = (height as f64 * 0.8).floor() as usize;
        assert_eq!((height as u32 * 4 / 5) as usize, float);
    }
}

#[test]
fn the_vertical_bar_is_painted_cell_by_cell() {
    let state = EditorState::with_text(&"x\n".repeat(30));
    let mut buf = filled(3, 12);
    let rect = Rect { x: 1, y: 1, width: 1, height: 10 };
    let ratio = scrollbar_size_ratio(&state, rect, LARGE_FILE_THRESHOLD_BYTES, 30);
    assert_eq!(ratio, Some(Ratio { part: 10, whole: 30, length: 10 }));
    let start = scrollbar_start_ratio(
        &state,
        &Viewport::new(80, 10),
        rect,
        LARGE_FILE_THRESHOLD_BYTES,
        30,
        99,
        4,
    );
    assert_eq!(start, Some(Ratio { part: 20, whole: 20, length: 6 }));
    let thumb = render_scrollbar(
        &mut buf,
        &state,
        rect,
        &theme(),
        LARGE_FILE_THRESHOLD_BYTES,
        30,
        Proportions { size: 4, start: 5 },
    );
    assert_eq!(thumb, (5, 9));
    for y in 0..12u16 {
        for x in 0..3u16 {
            let cell = buf.cell((x, y)).unwrap();
            assert_eq!(cell.fg, Color::Green);
            assert_eq!(cell.modifier, Modifier::BOLD);
            if x == 1 && (1..11).contains(&y) {
                assert_eq!(cell.symbol(), " ");
                let row = (y - 1) as usize;
                let expected = if row >= thumb.0 && row < thumb.1 {
                    Color::Rgb(1, 2, 3)
                } else {
                    Color::DarkGray
                };
                assert_eq!(cell.bg, expected);
            } else {
                assert_eq!(cell.symbol(), "#");
                assert_eq!(cell.bg, Color::Red);
            }
        }
    }
}

#[test]
fn vertical_thumbs_are_limited() {
    let state = EditorState::with_text("x");
    let rect = Rect { x: 0, y: 0, width: 1, height: 10 };
    let render = |height: u16, total: usize, size: usize, start: usize| {
        let mut buf = filled(1, 10);
        let bar = Rect { height, ..rect };
        render_scrollbar(
            &mut buf,
            &state,
            bar,
            &theme(),
            LARGE_FILE_THRESHOLD_BYTES,
            total,
            Proportions { size, start },
        )
    };
    assert_eq!(render(10, 11, 10, 1), (1, 9));
    assert_eq!(render(10, 1_000_000, 0, 4), (4, 5));
    assert_eq!(render(10, 10, 3, 4), (0, 10));
    assert_eq!(render(10, 0, 3, 4), (0, 10));
    assert_eq!(render(0, 100, 3, 4), (0, 0));
    assert_eq!(render(1, 100, 1, 1), (1, 1));
    assert_eq!(scrollbar_size_ratio(&state, rect, LARGE_FILE_THRESHOLD_BYTES, 10), None);
}

fn quotient(r: Ratio) -> f64 {
    (r.part as f64 / r.whole as f64) * r.length as f64
}

/// The thumb of a buffer's bar, with proportions in floating point.
fn buffer_thumb(state: &EditorState, top_byte: usize, threshold: u64, total: usize, top: usize) -> (usize, usize) {
    let rect = Rect { x: 0, y: 0, width: 1, height: 20 };
    let mut viewport = Viewport::new(80, 20);
    viewport.top_byte = top_byte;
    let size = scrollbar_size_ratio(state, rect, threshold, total)
        .map(|r| quotient(r).ceil() as usize)
        .unwrap_or(1);
    let start = scrollbar_start_ratio(state, &viewport, rect, threshold, total, top, size)
        .map(|r| quotient(r) as usize)
        .unwrap_or(0);
    let mut buf = filled(1, 20);
    let proportions = Proportions { size, start };
    render_scrollbar(&mut buf, state, rect, &theme(), threshold, total, proportions)
}

#[test]
fn vertical_thumbs_follow_the_top_line() {
    let state = EditorState::with_text("x");
    for total in [0, 1, 20, 21, 33, 100, 977, 123_456] {
        let mut last = 0;
        let mut size = None;
        for top in 0..=total.min(1200) + 3 {
            let (start, end) = buffer_thumb(&state, 0, LARGE_FILE_THRESHOLD_BYTES, total, top);
            assert!(last <= start && end <= 20);
            assert_eq!(*size.get_or_insert(end - start), end - start);
            if top == 0 {
                assert_eq!(start, 0);
            }
            if top + 20 >= total {
                assert_eq!(end, 20);
            }
            last = start;
        }
    }
}

#[test]
fn large_file_thumbs_follow_the_top_byte() {
    let state = EditorState::with_text(&"x".repeat(997));
    let mut last = 0;
    for top_byte in 0..997 {
        let (start, end) = buffer_thumb(&state, top_byte, 996, 5, 3);
        assert_eq!(end, start + 1);
        assert!(last <= start && end <= 20);
        assert_eq!((start, end), buffer_thumb(&state, top_byte, 996, 50_000, 0));
        last = start;
    }
    assert_eq!(last, 19);
    assert_eq!(buffer_thumb(&state, 0, 996, 0, 0), (0, 1));
}

#[test]
fn horizontal_thumbs_follow_the_left_column() {
    let rect = Rect { x: 0, y: 0, width: 15, height: 1 };
    for widest in [10, 40, 99, 5_000] {
        let metrics = HorizontalScrollMetrics::new(widest, 30);
        let mut last = 0;
        for left_column in 0..=metrics.max_scroll + 2 {
            let mut viewport = Viewport::new(30, 5);
            viewport.left_column = left_column;
            let size = horizontal_size_ratio(rect, metrics)
                .map(|r| quotient(r).ceil() as usize)
                .unwrap_or(1);
            let start = horizontal_start_ratio(&viewport, rect, metrics, size)
                .map(|r| quotient(r).round() as usize)
                .unwrap_or(0);
            let mut buf = filled(15, 1);
            let proportions = Proportions { size, start };
            let (start, end) = render_horizontal_scrollbar(
                &mut buf,
                &viewport,
                rect,
                &theme(),
                metrics,
                proportions,
            );
            assert!(last <= start && start + 2 <= end && end <= 15);
            if left_column == 0 {
                assert_eq!(start, 0);
            }
            if left_column >= metrics.max_scroll {
                assert_eq!(end, 15);
            }
            last = start;
        }
    }
}

#[test]
fn composite_bars_agree_with_buffer_bars() {
    let state = EditorState::with_text("x");
    let rect = Rect { x: 0, y: 0, width: 1, height: 10 };
    let proportions = Proportions { size: 3, start: 2 };
    for total in [0, 1, 10, 11, 500] {
        let mut a = filled(1, 10);
        let mut b = filled(1, 10);
        let composite =
            render_composite_scrollbar(&mut a, rect, total, 10, &theme(), proportions);
        let buffer = render_scrollbar(
            &mut b,
            &state,
            rect,
            &theme(),
            LARGE_FILE_THRESHOLD_BYTES,
            total,
            proportions,
        );
        if total > 0 {
            assert_eq!(composite, buffer);
            assert_eq!(a, b);
            assert_eq!(
                composite_size_ratio(rect, total, 10),
                scrollbar_size_ratio(&state, rect, LARGE_FILE_THRESHOLD_BYTES, total)
            );
        } else {
            assert_eq!(composite, (0, 0));
            assert_eq!(buffer, (0, 10));
            assert_eq!(a, filled(1, 10));
        }
    }
}

#[test]
fn large_files_have_a_thumb_of_one_cell() {
    let state = EditorState::with_text("0123456789");
    let rect = Rect { x: 0, y: 0, width: 1, height: 10 };
    let mut viewport = Viewport::new(80, 10);
    viewport.top_byte = 5;
    assert_eq!(scrollbar_size_ratio(&state, rect, 9, 0), None);
    assert_eq!(
        scrollbar_start_ratio(&state, &viewport, rect, 9, 0, 0, 0),
        Some(Ratio { part: 5, whole: 10, length: 10 })
    );
    let mut buf = filled(1, 10);
    let proportions = Proportions { size: 7, start: 5 };
    assert_eq!(render_scrollbar(&mut buf, &state, rect, &theme(), 9, 0, proportions), (5, 6));
}

#[test]
fn bars_beyond_the_buffer_are_clipped() {
    let state = EditorState::with_text("x");
    let mut buf = filled(2, 2);
    let rect = Rect { x: 1, y: 1, width: 1, height: 5 };
    let proportions = Proportions { size: 1, start: 0 };
    let thumb = render_scrollbar(
        &mut buf,
        &state,
        rect,
        &theme(),
        LARGE_FILE_THRESHOLD_BYTES,
        50,
        proportions,
    );
    assert_eq!(thumb, (0, 1));
    assert_eq!(buf.cell((1, 1)).unwrap().bg, Color::Rgb(1, 2, 3));
    assert_eq!(buf.cell((1, 0)).unwrap().bg, Color::Red);
    let mut outside = filled(2, 2);
    let far = Rect { x: 9, y: 9, width: 1, height: 5 };
    render_composite_scrollbar(&mut outside, far, 5, 50, &theme(), proportions);
    assert_eq!(outside, filled(2, 2));
}

#[test]
fn the_horizontal_bar_is_painted_cell_by_cell() {
    let metrics = HorizontalScrollMetrics::new(39, 20);
    let rect = Rect { x: 2, y: 1, width: 8, height: 1 };
    let mut viewport = Viewport::new(20, 5);
    viewport.left_column = 5;
    assert_eq!(
        horizontal_size_ratio(rect, metrics),
        Some(Ratio { part: 20, whole: 40, length: 8 })
    );
    assert_eq!(
        horizontal_start_ratio(&viewport, rect, metrics, 4),
        Some(Ratio { part: 5, whole: 20, length: 4 })
    );
    let mut buf = filled(12, 3);
    let proportions = Proportions { size: 4, start: 1 };
    let thumb =
        render_horizontal_scrollbar(&mut buf, &viewport, rect, &theme(), metrics, proportions);
    assert_eq!(thumb, (1, 5));
    for x in 0..12u16 {
        let bg = buf.cell((x, 1)).unwrap().bg;
        if (3..7).contains(&x) {
            assert_eq!(bg, Color::Rgb(1, 2, 3));
        } else if (2..10).contains(&x) {
            assert_eq!(bg, Color::DarkGray);
        } else {
            assert_eq!(bg, Color::Red);
        }
        assert_eq!(buf.cell((x, 0)).unwrap().bg, Color::Red);
    }
}

#[test]
fn horizontal_thumbs_are_limited() {
    let rect = Rect { x: 0, y: 0, width: 8, height: 1 };
    let viewport = Viewport::new(20, 5);
    let render = |viewport: &Viewport, rect: Rect, metrics, size, start| {
        let mut buf = filled(8, 1);
        let thumb = render_horizontal_scrollbar(
            &mut buf,
            viewport,
            rect,
            &theme(),
            metrics,
            Proportions { size, start },
        );
        (thumb, buf.cell((0, 0)).unwrap().bg)
    };
    let scrolling = HorizontalScrollMetrics::new(99, 20);
    let still = HorizontalScrollMetrics::new(10, 20);
    assert_eq!(render(&viewport, rect, scrolling, 1, 0), ((0, 2), Color::Rgb(1, 2, 3)));
    assert_eq!(render(&viewport, rect, scrolling, 99, 0), ((0, 8), Color::Rgb(1, 2, 3)));
    assert_eq!(render(&viewport, rect, still, 1, 3), ((0, 8), Color::Rgb(1, 2, 3)));
    assert_eq!(horizontal_size_ratio(rect, still), None);
    assert_eq!(horizontal_start_ratio(&viewport, rect, still, 3), None);
    let mut wrapped = viewport;
    wrapped.line_wrap_enabled = true;
    assert_eq!(render(&wrapped, rect, scrolling, 2, 3), ((0, 8), Color::DarkGray));
    let flat = Rect { height: 0, ..rect };
    assert_eq!(render(&viewport, flat, scrolling, 2, 3), ((0, 0), Color::Red));
    let far = Rect { x: u16::MAX, width: 2, height: 0, ..rect };
    assert_eq!(render(&viewport, far, scrolling, 2, 3), ((0, 0), Color::Red));
    assert_eq!(render(&wrapped, rect, scrolling, 2, usize::MAX), ((0, 8), Color::DarkGray));
    let thin = Rect { width: 1, ..rect };
    assert_eq!(render(&viewport, thin, scrolling, 1, 0), ((0, 1), Color::Rgb(1, 2, 3)));
}

#[test]
fn the_composite_bar_needs_rows() {
    let rect = Rect { x: 0, y: 0, width: 1, height: 5 };
    let mut buf = filled(1, 5);
    let proportions = Proportions { size: 2, start: 3 };
    let none = render_composite_scrollbar(&mut buf, rect, 0, 5, &theme(), proportions);
    assert_eq!(none, (0, 0));
    assert_eq!(buf, filled(1, 5));
    assert_eq!(
        composite_size_ratio(rect, 20, 8),
        Some(Ratio { part: 8, whole: 20, length: 5 })
    );
    assert_eq!(
        composite_start_ratio(rect, 20, 99, 8, 2),
        Some(Ratio { part: 12, whole: 12, length: 3 })
    );
    let thumb = render_composite_scrollbar(&mut buf, rect, 20, 8, &theme(), proportions);
    assert_eq!(thumb, (3, 5));
    let all = render_composite_scrollbar(&mut buf, rect, 8, 8, &theme(), proportions);
    assert_eq!(all, (0, 5));
    assert_eq!(buf.cell((0, 0)).unwrap().bg, Color::Rgb(1, 2, 3));
}
