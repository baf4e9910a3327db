//! How many terminal columns a line of text takes: tabs run to the next tab
//! stop, escape sequences take none, wide characters take two.
use vstd::prelude::*;

verus! {

/// The columns that one character takes, as `unicode-width` has it; nothing for
/// a control character.
pub uninterp spec fn char_columns(c: char) -> Option<usize>;

/// `unicode_width::UnicodeWidthChar::width`: the displayed width of a character,
/// `None` for a control character (below U+0020, or from U+007F to below
/// U+00A0), one for the printable ASCII characters, and for any other character
/// what the crate's tables say.
#[verifier::external_body]
pub(crate) fn unicode_columns(c: char) -> (columns: Option<usize>)
    ensures
        columns == char_columns(c),
        columns is None <==> (c as u32) < 0x20 || 0x7f <= (c as u32) < 0xa0,
        0x20 <= (c as u32) < 0x7f ==> columns == Some(1usize),
{
    unicode_width::UnicodeWidthChar::width(c)
}

/// Whether the text is being shown, or an escape sequence is being skipped.
#[derive(Clone, Copy, Debug, PartialEq, Eq, Structural)]
pub enum EscapeState {
    Text,
    /// Behind an escape character.
    Escape,
    /// Inside a control sequence, behind `ESC [`.
    Control,
}

/// Where a left-to-right scan of a line stands.
#[derive(Clone, Copy, Debug, PartialEq, Eq, Structural)]
pub struct ColumnScan {
    pub column: usize,
    pub escape: EscapeState,
}

/// A column `by` further right, or the last column there can be.
pub open spec fn column_plus(column: usize, by: int) -> usize {
    if column + by <= usize::MAX {
        (column + by) as usize
    } else {
        usize::MAX
    }
}

/// How far it is from `column` to the next tab stop.
pub open spec fn to_tab_stop(column: usize, tab_size: usize) -> int {
    tab_size - (column as int) % (tab_size as int)
}

impl ColumnScan {
    /// The scan behind the character `c`, which takes `columns` where it is
    /// shown.
    pub open spec fn past(self, c: char, columns: usize, tab_size: usize) -> ColumnScan {
        match self.escape {
            EscapeState::Text => if c == '\x1b' {
                ColumnScan { escape: EscapeState::Escape, ..self }
            } else if c == '\t' {
                ColumnScan {
                    column: column_plus(self.column, to_tab_stop(self.column, tab_size)),
                    ..self
                }
            } else {
                ColumnScan { column: column_plus(self.column, columns as int), ..self }
            },
            EscapeState::Escape => if c == '[' {
                ColumnScan { escape: EscapeState::Control, ..self }
            } else {
                ColumnScan { escape: EscapeState::Text, ..self }
            },
            EscapeState::Control => if '@' <= c <= '~' {
                ColumnScan { escape: EscapeState::Text, ..self }
            } else {
                self
            },
        }
    }

    /// The scan behind the character `c`, which takes `columns` where it is
    /// shown.
    pub fn advance(self, c: char, columns: usize, tab_size: usize) -> (scan: ColumnScan)
        requires
            tab_size > 0,
        ensures
            scan == self.past(c, columns, tab_size),
    {
        match self.escape {
            EscapeState::Text => {
                if c == '\x1b' {
                    ColumnScan { column: self.column, escape: EscapeState::Escape }
                } else if c == '\t' {
                    let by: usize = tab_size - self.column % tab_size;
                    ColumnScan {
                        column: self.column.saturating_add(by),
                        escape: EscapeState::Text,
                    }
                } else {
                    ColumnScan {
                        column: self.column.saturating_add(columns),
                        escape: EscapeState::Text,
                    }
                }
            },
            EscapeState::Escape => {
                if c == '[' {
                    ColumnScan { column: self.column, escape: EscapeState::Control }
                } else {
                    ColumnScan { column: self.column, escape: EscapeState::Text }
                }
            },
            EscapeState::Control => {
                if '@' <= c && c <= '~' {
                    ColumnScan { column: self.column, escape: EscapeState::Text }
                } else {
                    self
                }
            },
        }
    }
}

/// The columns of `c`; a control character takes none.
pub open spec fn shown_columns(c: char) -> usize {
    match char_columns(c) {
        Some(n) => n,
        None => 0,
    }
}

/// The scan behind `text`, begun at `start_column`.
pub open spec fn scan_of(text: Seq<char>, start_column: usize, tab_size: usize) -> ColumnScan
    decreases text.len(),
{
    if text.len() == 0 {
        ColumnScan { column: start_column, escape: EscapeState::Text }
    } else {
        scan_of(text.drop_last(), start_column, tab_size).past(
            text.last(),
            shown_columns(text.last()),
            tab_size,
        )
    }
}

/// The columns that `text` takes when it is shown from `start_column` on.
pub open spec fn visual_width(text: Seq<char>, start_column: usize, tab_size: usize) -> int {
    scan_of(text, start_column, tab_size).column - start_column
}

/// More text never takes fewer columns.
pub proof fn law_width_grows(text: Seq<char>, more: Seq<char>, start_column: usize, tab_size: usize)
    requires
        tab_size > 0,
    ensures
        scan_of(text, start_column, tab_size).column <= scan_of(
            text + more,
            start_column,
            tab_size,
        ).column,
        visual_width(text, start_column, tab_size) >= 0,
    decreases text.len() + more.len(),
{
    if more.len() > 0 {
        law_width_grows(text, more.drop_last(), start_column, tab_size);
        assert((text + more).drop_last() == text + more.drop_last());
        lemma_past_grows(
            scan_of(text + more.drop_last(), start_column, tab_size),
            more.last(),
            shown_columns(more.last()),
            tab_size,
        );
    } else {
        assert(text + more == text);
        if text.len() > 0 {
            law_width_grows(text.drop_last(), Seq::empty(), start_column, tab_size);
            lemma_past_grows(
                scan_of(text.drop_last(), start_column, tab_size),
                text.last(),
                shown_columns(text.last()),
                tab_size,
            );
        }
    }
}

proof fn lemma_past_grows(scan: ColumnScan, c: char, columns: usize, tab_size: usize)
    requires
        tab_size > 0,
    ensures
        scan.column <= scan.past(c, columns, tab_size).column,
{
    assert(0 <= (scan.column as int) % (tab_size as int) < tab_size) by (nonlinear_arith)
        requires
            tab_size > 0,
    ;
}

/// Whether every character is printable ASCII.
pub open spec fn is_plain(text: Seq<char>) -> bool {
    forall|i: int| 0 <= i < text.len() ==> ' ' <= #[trigger] text[i] <= '~'
}

/// Whether every character is a control character that neither is a tab nor begins
/// an escape sequence.
pub open spec fn is_unseen(text: Seq<char>) -> bool {
    forall|i: int|
        0 <= i < text.len() ==> (#[trigger] text[i] as u32) < 0x20 && text[i] != '\t' && text[i]
            != '\x1b' || 0x7f <= (text[i] as u32) < 0xa0
}

/// The columns that `text` takes when it is shown from `start_column` on.
pub fn visual_width_with_tab_size(text: &[char], start_column: usize, tab_size: usize) -> (width:
    usize)
    requires
        tab_size > 0,
    ensures
        width == visual_width(text@, start_column, tab_size),
        is_plain(text@) && start_column + text@.len() <= usize::MAX ==> width == text@.len(),
        is_unseen(text@) ==> width == 0,
{
    let mut scan = ColumnScan { column: start_column, escape: EscapeState::Text };
    let mut i: usize = 0;
    while i < text.len()
        invariant
            i <= text.len(),
            tab_size > 0,
            scan == scan_of(text@.take(i as int), start_column, tab_size),
            is_plain(text@) && start_column + text@.len() <= usize::MAX ==> scan == (ColumnScan {
                column: (start_column + i) as usize,
                escape: EscapeState::Text,
            }),
            is_unseen(text@) ==> scan == (ColumnScan {
                column: start_column,
                escape: EscapeState::Text,
            }),
        decreases text.len() - i,
    {
        assert(text@.take(i + 1).drop_last() == text@.take(i as int));
        let columns: usize = match unicode_columns(text[i]) {
            Some(n) => n,
            None => 0,
        };
        scan = scan.advance(text[i], columns, tab_size);
        i += 1;
    }
    proof {
        assert(text@.take(i as int) == text@);
        law_width_grows(text@, Seq::empty(), start_column, tab_size);
    }
    scan.column - start_column
}

} // verus!
