//! How many columns text takes.
use vstd::prelude::*;

use crate::view::width::{
    char_columns, scan_of, visual_width_with_tab_size, ColumnScan, EscapeState,
};

verus! {

/// A character takes its own columns; a tab runs to the next tab stop, one column
/// away at least; an escape character takes none, and begins a sequence.
pub proof fn law_shown_characters_take_columns(
    column: usize,
    c: char,
    columns: usize,
    tab_size: usize,
    scan: ColumnScan,
)
    requires
        tab_size > 0,
        call_ensures(
            ColumnScan::advance,
            (ColumnScan { column, escape: EscapeState::Text }, c, columns, tab_size),
            scan,
        ),
    ensures
        c == '\x1b' ==> scan.column == column && scan.escape == EscapeState::Escape,
        c == '\t' ==> scan.escape == EscapeState::Text,
        c == '\t' && (column + tab_size <= usize::MAX || scan.column < usize::MAX) ==> {
            &&& column < scan.column <= column + tab_size
            &&& (scan.column as int) % (tab_size as int) == 0
        },
        c != '\x1b' && c != '\t' ==> {
            &&& scan.escape == EscapeState::Text
            &&& column + columns <= usize::MAX ==> scan.column == column + columns
            &&& column + columns > usize::MAX ==> scan.column == usize::MAX
        },
{
    if c == '\t' {
        lemma_tab_stop(column as int, tab_size as int);
    }
}

proof fn lemma_tab_stop(column: int, tab: int)
    by (nonlinear_arith)
    requires
        0 <= column,
        0 < tab,
    ensures
        0 <= column % tab < tab,
        (column + (tab - column % tab)) % tab == 0,
{
    let q = column / tab;
    assert(column == tab * q + column % tab);
    assert(column + (tab - column % tab) == tab * (q + 1));
    assert((tab * (q + 1)) % tab == 0);
}

/// An escape sequence takes no columns: it is one character behind the escape
/// character, or runs from `[` to the first character from `@` to `~`.
pub proof fn law_escape_sequences_take_no_columns(
    column: usize,
    c: char,
    columns: usize,
    tab_size: usize,
    behind_escape: ColumnScan,
    in_sequence: ColumnScan,
)
    requires
        tab_size > 0,
        call_ensures(
            ColumnScan::advance,
            (ColumnScan { column, escape: EscapeState::Escape }, c, columns, tab_size),
            behind_escape,
        ),
        call_ensures(
            ColumnScan::advance,
            (ColumnScan { column, escape: EscapeState::Control }, c, columns, tab_size),
            in_sequence,
        ),
    ensures
        behind_escape.column == column,
        in_sequence.column == column,
        behind_escape.escape == EscapeState::Control <==> c == '[',
        behind_escape.escape == EscapeState::Text <==> c != '[',
        in_sequence.escape == EscapeState::Text <==> '@' <= c <= '~',
        in_sequence.escape == EscapeState::Control <==> !('@' <= c <= '~'),
{
}

proof fn lemma_scan_goes_on(a: Seq<char>, b: Seq<char>, start: usize, tab_size: usize)
    requires
        scan_of(a, start, tab_size).escape == EscapeState::Text,
    ensures
        scan_of(a + b, start, tab_size) == scan_of(
            b,
            scan_of(a, start, tab_size).column,
            tab_size,
        ),
    decreases b.len(),
{
    if b.len() == 0 {
        assert(a + b =~= a);
    } else {
        lemma_scan_goes_on(a, b.drop_last(), start, tab_size);
        assert((a + b).drop_last() =~= a + b.drop_last());
    }
}

proof fn lemma_plain_scan(text: Seq<char>, start: usize, tab_size: usize)
    requires
        !text.contains('\x1b'),
    ensures
        scan_of(text, start, tab_size).escape == EscapeState::Text,
    decreases text.len(),
{
    if text.len() > 0 {
        let front = text.drop_last();
        assert forall|i: int| 0 <= i < front.len() implies front[i] != '\x1b' by {
            assert(text.contains(text[i]));
        }
        lemma_plain_scan(front, start, tab_size);
        assert(text.contains(text.last()));
    }
}

/// No text takes no columns.
pub proof fn law_nothing_takes_no_columns(
    text: &[char],
    start: usize,
    tab_size: usize,
    width: usize,
)
    requires
        tab_size > 0,
        text@.len() == 0,
        call_ensures(visual_width_with_tab_size, (text, start, tab_size), width),
    ensures
        width == 0,
{
}

/// One character takes the columns that Unicode gives it, none where it gives none;
/// a tab runs to the next tab stop.
pub proof fn law_character_takes_its_columns(
    text: &[char],
    start: usize,
    tab_size: usize,
    width: usize,
)
    requires
        tab_size > 0,
        text@.len() == 1,
        call_ensures(visual_width_with_tab_size, (text, start, tab_size), width),
        start + tab_size <= usize::MAX,
        char_columns(text@[0]) matches Some(n) ==> start + n <= usize::MAX,
    ensures
        text@[0] == '\t' ==> {
            &&& 0 < width <= tab_size
            &&& (start + width) % (tab_size as int) == 0
        },
        text@[0] != '\t' && text@[0] != '\x1b' ==> width == match char_columns(text@[0]) {
            Some(n) => n,
            None => 0,
        },
{
    assert(text@.drop_last() =~= Seq::empty());
    assert(scan_of(Seq::empty(), start, tab_size).column == start);
    lemma_tab_stop(start as int, tab_size as int);
}

/// Printable ASCII takes one column a character, and control characters take none.
pub proof fn law_ascii_takes_a_column_each(
    text: &[char],
    start: usize,
    tab_size: usize,
    width: usize,
)
    requires
        tab_size > 0,
        call_ensures(visual_width_with_tab_size, (text, start, tab_size), width),
    ensures
        (forall|i: int| 0 <= i < text@.len() ==> ' ' <= #[trigger] text@[i] <= '~') && start
            + text@.len() <= usize::MAX ==> width == text@.len(),
        (forall|i: int|
            0 <= i < text@.len() ==> 0x7f <= (#[trigger] text@[i] as u32) < 0xa0 || text@[i]
                == '\r' || text@[i] == '\n' || text@[i] == '\0') ==> width == 0,
{
}

/// Texts behind one another take the columns of both, the second from where the
/// first ends: of the first, only that no escape sequence is left open in it.
pub proof fn law_widths_add_up(
    first: &[char],
    second: &[char],
    both: &[char],
    start: usize,
    tab_size: usize,
    first_width: usize,
    second_start: usize,
    second_width: usize,
    width: usize,
)
    requires
        tab_size > 0,
        both@ == first@ + second@,
        !first@.contains('\x1b'),
        call_ensures(visual_width_with_tab_size, (first, start, tab_size), first_width),
        second_start == start + first_width,
        call_ensures(visual_width_with_tab_size, (second, second_start, tab_size), second_width),
        call_ensures(visual_width_with_tab_size, (both, start, tab_size), width),
    ensures
        width == first_width + second_width,
{
    lemma_plain_scan(first@, start, tab_size);
    lemma_scan_goes_on(first@, second@, start, tab_size);
}

proof fn lemma_control_sequence(inner: Seq<char>, start: usize, tab_size: usize)
    requires
        forall|i: int| 0 <= i < inner.len() ==> !('@' <= #[trigger] inner[i] <= '~'),
    ensures
        scan_of(seq!['\x1b', '['] + inner, start, tab_size) == (ColumnScan {
            column: start,
            escape: EscapeState::Control,
        }),
    decreases inner.len(),
{
    let text = seq!['\x1b', '['] + inner;
    if inner.len() == 0 {
        let one = seq!['\x1b'];
        assert(text.drop_last() =~= one);
        assert(one.drop_last() =~= Seq::empty());
        assert(scan_of(Seq::empty(), start, tab_size) == (ColumnScan {
            column: start,
            escape: EscapeState::Text,
        }));
        assert(scan_of(one, start, tab_size) == (ColumnScan {
            column: start,
            escape: EscapeState::Escape,
        }));
    } else {
        let front = inner.drop_last();
        assert(text.drop_last() =~= seq!['\x1b', '['] + front);
        assert(text.last() == inner.last());
        assert forall|i: int| 0 <= i < front.len() implies !('@' <= #[trigger] front[i] <= '~') by {
            assert(front[i] == inner[i]);
        }
        lemma_control_sequence(front, start, tab_size);
        assert(inner.last() == inner[inner.len() - 1]);
    }
}

/// Text behind a control sequence takes the columns that it takes without it.
pub proof fn law_control_sequences_are_passed_over(
    inner: Seq<char>,
    last: char,
    text: &[char],
    coloured: &[char],
    start: usize,
    tab_size: usize,
    width: usize,
    coloured_width: usize,
)
    requires
        tab_size > 0,
        forall|i: int| 0 <= i < inner.len() ==> !('@' <= #[trigger] inner[i] <= '~'),
        '@' <= last <= '~',
        coloured@ == seq!['\x1b', '['] + inner + seq![last] + text@,
        call_ensures(visual_width_with_tab_size, (text, start, tab_size), width),
        call_ensures(visual_width_with_tab_size, (coloured, start, tab_size), coloured_width),
    ensures
        coloured_width == width,
{
    let open = seq!['\x1b', '['] + inner;
    let closed = open + seq![last];
    lemma_control_sequence(inner, start, tab_size);
    assert(closed.drop_last() =~= open);
    lemma_scan_goes_on(closed, text@, start, tab_size);
}

/// An escape sequence that is never closed takes no columns either.
pub proof fn law_open_sequences_take_no_columns(
    inner: Seq<char>,
    text: &[char],
    start: usize,
    tab_size: usize,
    width: usize,
)
    requires
        tab_size > 0,
        forall|i: int| 0 <= i < inner.len() ==> !('@' <= #[trigger] inner[i] <= '~'),
        text@ == seq!['\x1b', '['] + inner || text@ == seq!['\x1b'],
        call_ensures(visual_width_with_tab_size, (text, start, tab_size), width),
    ensures
        width == 0,
{
    lemma_control_sequence(inner, start, tab_size);
    if text@ == seq!['\x1b'] {
        assert(text@.drop_last() =~= Seq::empty());
        assert(scan_of(Seq::empty(), start, tab_size).column == start);
    }
}

/// Text behind an escape character and one character other than `[` takes the
/// columns that it takes without them.
pub proof fn law_short_sequences_are_passed_over(
    c: char,
    text: &[char],
    escaped: &[char],
    start: usize,
    tab_size: usize,
    width: usize,
    escaped_width: usize,
)
    requires
        tab_size > 0,
        c != '[',
        escaped@ == seq!['\x1b', c] + text@,
        call_ensures(visual_width_with_tab_size, (text, start, tab_size), width),
        call_ensures(visual_width_with_tab_size, (escaped, start, tab_size), escaped_width),
    ensures
        escaped_width == width,
{
    let sequence = seq!['\x1b', c];
    let one = seq!['\x1b'];
    assert(sequence.drop_last() =~= one);
    assert(one.drop_last() =~= Seq::empty());
    assert(scan_of(Seq::empty(), start, tab_size) == (ColumnScan {
        column: start,
        escape: EscapeState::Text,
    }));
    assert(scan_of(one, start, tab_size) == (ColumnScan {
        column: start,
        escape: EscapeState::Escape,
    }));
    lemma_scan_goes_on(sequence, text@, start, tab_size);
}

} // verus!
