//! The visual-row index: for each logical line, the byte at which it starts and
//! the visual row on which it starts when long lines wrap.
use vstd::prelude::*;

use crate::view::buffer::{
    byte_len, lemma_line_number_saturates, line_number, line_starts, offsets, TextBuffer,
};

verus! {

/// Versions of everything that decides how lines are laid out.
#[derive(Clone, Copy, Debug, PartialEq, Eq, Structural)]
pub struct PipelineVersions {
    pub buffer: u64,
    pub soft_breaks: u64,
    pub conceals: u64,
    pub virtual_texts: u64,
}

/// How the text is shown.
#[derive(Clone, Copy, Debug, PartialEq, Eq, Structural)]
pub enum CacheViewMode {
    Source,
    Compose,
}

/// What an index was built for. Two equal keys stand for one layout.
#[derive(Clone, Copy, Debug, PartialEq, Eq, Structural)]
pub struct VisualRowIndexKey {
    pub pipeline_inputs_version: PipelineVersions,
    pub view_mode: CacheViewMode,
    pub effective_width: u32,
    pub gutter_width: u16,
    pub wrap_column: Option<u32>,
    pub hanging_indent: bool,
    pub line_wrap_enabled: bool,
    pub grid_wrap: bool,
}

/// The index.
#[derive(Debug)]
pub struct VisualRowIndex {
    key: Option<VisualRowIndexKey>,
    line_starts: Vec<usize>,
    first_rows: Vec<u32>,
}

/// The mathematical value of a [`VisualRowIndex`]: the first row of each line,
/// and behind them the number of all rows. Empty where nothing was built.
#[verifier::ext_equal]
pub struct IndexView {
    pub key: Option<VisualRowIndexKey>,
    pub starts: Seq<usize>,
    pub first_rows: Seq<u32>,
}

/// The rows of the first `n` lines together.
pub open spec fn rows_before(line_rows: Seq<u32>, n: int) -> nat
    decreases n,
{
    if n <= 0 {
        0
    } else {
        rows_before(line_rows, n - 1) + line_rows[n - 1] as nat
    }
}

/// The last of the ascending `starts` that is not behind `byte`.
pub open spec fn line_at(starts: Seq<usize>, byte: usize) -> int
    decreases starts.len(),
{
    if starts.len() == 0 {
        0
    } else if starts.last() <= byte {
        starts.len() - 1
    } else {
        line_at(starts.drop_last(), byte)
    }
}

/// The index of `text`, whose lines take `line_rows` rows each.
pub open spec fn index_of(
    key: VisualRowIndexKey,
    text: Seq<char>,
    line_rows: Seq<u32>,
) -> IndexView {
    IndexView {
        key: Some(key),
        starts: Seq::new(line_starts(text).len(), |i: int| line_starts(text)[i] as usize),
        first_rows: Seq::new(
            line_rows.len() + 1,
            |i: int| rows_before(line_rows, i) as u32,
        ),
    }
}

impl IndexView {
    pub open spec fn empty() -> IndexView {
        IndexView { key: None, starts: Seq::empty(), first_rows: Seq::empty() }
    }

    /// The number of all rows.
    pub open spec fn total_rows(self) -> u32 {
        if self.first_rows.len() == 0 {
            0
        } else {
            self.first_rows.last()
        }
    }

    /// The row on which line `line` starts. Behind the last line that is the
    /// number of all rows.
    pub open spec fn first_row(self, line: int) -> u32 {
        if 0 <= line < self.first_rows.len() {
            self.first_rows[line]
        } else {
            self.total_rows()
        }
    }

    /// Lines start in ascending order, the first at zero, and rows are numbered
    /// in the order of the lines.
    pub open spec fn wf(self) -> bool {
        &&& self.starts.len() == 0 ==> self.first_rows.len() == 0
        &&& self.starts.len() > 0 ==> self.starts[0] == 0 && self.first_rows.len()
            == self.starts.len() + 1
        &&& forall|i: int, j: int|
            0 <= i < j < self.starts.len() ==> self.starts[i] < self.starts[j]
        &&& forall|i: int, j: int|
            0 <= i <= j < self.first_rows.len() ==> self.first_rows[i] <= self.first_rows[j]
    }
}

proof fn lemma_line_at(starts: Seq<usize>, byte: usize, line: int)
    requires
        forall|i: int, j: int| 0 <= i < j < starts.len() ==> starts[i] < starts[j],
        0 <= line < starts.len(),
        starts[line] <= byte,
        line + 1 < starts.len() ==> byte < starts[line + 1],
    ensures
        line_at(starts, byte) == line,
    decreases starts.len(),
{
    if line + 1 < starts.len() {
        assert(byte < starts.last());
        lemma_line_at(starts.drop_last(), byte, line);
    }
}

proof fn lemma_starts_ascend(text: Seq<char>)
    ensures
        line_starts(text).len() > 0,
        line_starts(text)[0] == 0,
        forall|i: int| 0 <= i < line_starts(text).len() ==> line_starts(text)[i] <= byte_len(text),
        forall|i: int, j: int|
            0 <= i < j < line_starts(text).len() ==> line_starts(text)[i] < line_starts(text)[j],
    decreases text.len(),
{
    if text.len() > 0 {
        lemma_starts_ascend(text.drop_last());
    }
}

proof fn lemma_rows_ascend(line_rows: Seq<u32>, i: int, j: int)
    requires
        0 <= i <= j <= line_rows.len(),
    ensures
        rows_before(line_rows, i) <= rows_before(line_rows, j),
    decreases j - i,
{
    if i < j {
        lemma_rows_ascend(line_rows, i, j - 1);
    }
}

impl VisualRowIndex {
    pub closed spec fn view(&self) -> IndexView {
        IndexView { key: self.key, starts: self.line_starts@, first_rows: self.first_rows@ }
    }

    #[verifier::type_invariant]
    spec fn inv(self) -> bool {
        self@.wf()
    }

    /// An index that was not built.
    pub fn new() -> (index: VisualRowIndex)
        ensures
            index@ == IndexView::empty(),
    {
        VisualRowIndex { key: None, line_starts: Vec::new(), first_rows: Vec::new() }
    }

    /// Whether the index was built for `key`.
    pub fn is_built_for(&self, key: &VisualRowIndexKey) -> (built: bool)
        ensures
            built == (self@.key == Some(*key)),
            self@.wf(),
    {
        proof {
            use_type_invariant(self);
        }
        match self.key {
            Some(k) => k == *key,
            None => false,
        }
    }

    /// The index of `buffer`, whose lines take `line_rows` rows each.
    pub fn build(key: &VisualRowIndexKey, buffer: &TextBuffer, line_rows: &Vec<u32>) -> (index:
        VisualRowIndex)
        requires
            line_rows.len() == line_starts(buffer@).len(),
            rows_before(line_rows@, line_rows.len() as int) <= u32::MAX,
        ensures
            index@ == index_of(*key, buffer@, line_rows@),
            index@.wf(),
    {
        let starts = buffer.line_start_offsets();
        let mut first_rows: Vec<u32> = Vec::new();
        first_rows.push(0);
        let mut row: u32 = 0;
        let mut i: usize = 0;
        while i < line_rows.len()
            invariant
                i <= line_rows.len(),
                row == rows_before(line_rows@, i as int),
                first_rows.len() == i + 1,
                forall|k: int|
                    0 <= k <= i ==> #[trigger] first_rows@[k] == rows_before(line_rows@, k),
                rows_before(line_rows@, line_rows.len() as int) <= u32::MAX,
            decreases line_rows.len() - i,
        {
            proof {
                lemma_rows_ascend(line_rows@, i + 1, line_rows.len() as int);
            }
            row = row + line_rows[i];
            first_rows.push(row);
            i += 1;
        }
        proof {
            lemma_starts_ascend(buffer@);
            let text = buffer@;
            assert forall|k: int| 0 <= k < starts.len() implies starts@[k]
                == line_starts(text)[k] by {
                assert(offsets(starts@)[k] == line_starts(text)[k]);
            }
            assert(offsets(starts@).len() == line_starts(text).len());
            assert forall|a: int, b: int| 0 <= a <= b < first_rows.len() implies first_rows@[a]
                <= first_rows@[b] by {
                lemma_rows_ascend(line_rows@, a, b);
            }
            let made = IndexView { key: Some(*key), starts: starts@, first_rows: first_rows@ };
            assert(made =~= index_of(*key, text, line_rows@));
        }
        VisualRowIndex { key: Some(*key), line_starts: starts, first_rows }
    }

    /// The number of logical lines that the index covers.
    pub fn line_count(&self) -> (n: usize)
        ensures
            n == self@.starts.len(),
    {
        self.line_starts.len()
    }

    /// The number of all rows.
    pub fn total_rows(&self) -> (rows: u32)
        ensures
            rows == self@.total_rows(),
            self@.wf(),
    {
        proof {
            use_type_invariant(self);
        }
        if self.first_rows.len() == 0 {
            0
        } else {
            self.first_rows[self.first_rows.len() - 1]
        }
    }

    /// The row on which line `line` starts. Behind the last line that is the
    /// number of all rows.
    pub fn line_first_row(&self, line: usize) -> (row: u32)
        ensures
            row == self@.first_row(line as int),
    {
        if line < self.first_rows.len() {
            self.first_rows[line]
        } else {
            self.total_rows()
        }
    }

    /// The line that `byte` lies in, and the byte at which that line starts.
    pub fn line_for_byte(&self, byte: usize) -> (found: (usize, usize))
        ensures
            found.0 == line_at(self@.starts, byte),
            found.1 == if self@.starts.len() == 0 {
                0
            } else {
                self@.starts[found.0 as int]
            },
    {
        proof {
            use_type_invariant(self);
        }
        if self.line_starts.len() == 0 {
            return (0, 0);
        }
        let mut low: usize = 0;
        let mut high: usize = self.line_starts.len();
        while high - low > 1
            invariant
                0 <= low < high <= self.line_starts.len(),
                self.line_starts@[low as int] <= byte,
                high < self.line_starts.len() ==> byte < self.line_starts@[high as int],
            decreases high - low,
        {
            let middle: usize = low + (high - low) / 2;
            if self.line_starts[middle] <= byte {
                low = middle;
            } else {
                high = middle;
            }
        }
        proof {
            lemma_line_at(self.line_starts@, byte, low as int);
        }
        (low, self.line_starts[low])
    }
}

/// The rows of the first lines add up, and none of the sums is out of range where
/// the last is not.
pub proof fn lemma_row_sums(line_rows: Seq<u32>)
    ensures
        forall|i: int|
            0 <= i <= line_rows.len() ==> #[trigger] rows_before(line_rows, i) <= rows_before(
                line_rows,
                line_rows.len() as int,
            ),
{
    assert forall|i: int| 0 <= i <= line_rows.len() implies #[trigger] rows_before(line_rows, i)
        <= rows_before(line_rows, line_rows.len() as int) by {
        lemma_rows_ascend(line_rows, i, line_rows.len() as int);
    }
}

/// The line that an index finds for a byte starts at or before it, and the next one
/// behind it.
pub proof fn lemma_line_at_places(
    key: VisualRowIndexKey,
    text: Seq<char>,
    line_rows: Seq<u32>,
    byte: usize,
)
    requires
        byte_len(text) <= usize::MAX,
    ensures
        ({
            let starts = index_of(key, text, line_rows).starts;
            let line = line_at(starts, byte);
            &&& starts.len() == line_starts(text).len()
            &&& 0 <= line < starts.len()
            &&& starts[line] == line_starts(text)[line]
            &&& starts[line] <= byte
            &&& line + 1 < starts.len() ==> byte < starts[line + 1] && starts[line + 1]
                == line_starts(text)[line + 1]
        }),
{
    lemma_starts_ascend(text);
    let starts = index_of(key, text, line_rows).starts;
    assert(starts[0] == 0);
    lemma_line_at_last(starts, byte);
}

proof fn lemma_line_at_last(starts: Seq<usize>, byte: usize)
    requires
        starts.len() > 0,
        starts[0] <= byte,
    ensures
        0 <= line_at(starts, byte) < starts.len(),
        starts[line_at(starts, byte)] <= byte,
        line_at(starts, byte) + 1 < starts.len() ==> byte < starts[line_at(starts, byte) + 1],
    decreases starts.len(),
{
    if starts.last() > byte {
        lemma_line_at_last(starts.drop_last(), byte);
    }
}

/// A later byte lies in no earlier line.
pub proof fn lemma_line_at_grows(starts: Seq<usize>, a: usize, b: usize)
    requires
        a <= b,
    ensures
        0 <= line_at(starts, a) <= line_at(starts, b),
        starts.len() > 0 ==> line_at(starts, b) < starts.len(),
    decreases starts.len(),
{
    if starts.len() > 0 && starts.last() > a {
        lemma_line_at_grows(starts.drop_last(), a, b);
    }
}

/// Where every line takes a row there are at least as many rows as lines.
pub proof fn lemma_rows_cover_lines(line_rows: Seq<u32>, n: int)
    requires
        0 <= n <= line_rows.len(),
        forall|i: int| 0 <= i < line_rows.len() ==> line_rows[i] >= 1,
    ensures
        rows_before(line_rows, n) >= n,
    decreases n,
{
    if n > 0 {
        lemma_rows_cover_lines(line_rows, n - 1);
    }
}

/// The index finds lines as the buffer counts them: the line of a byte offset is
/// the number of line feeds before it.
pub proof fn law_index_agrees_with_line_numbers(
    key: VisualRowIndexKey,
    text: Seq<char>,
    line_rows: Seq<u32>,
    byte: usize,
)
    requires
        byte_len(text) <= usize::MAX,
    ensures
        line_at(index_of(key, text, line_rows).starts, byte) == line_number(text, byte as int),
    decreases text.len(),
{
    let starts = index_of(key, text, line_rows).starts;
    if text.len() == 0 {
        assert(starts =~= seq![0usize]);
    } else {
        let front = text.drop_last();
        let front_starts = index_of(key, front, line_rows).starts;
        law_index_agrees_with_line_numbers(key, front, line_rows, byte);
        lemma_starts_ascend(front);
        if text.last() == '\n' {
            assert(starts.drop_last() =~= front_starts);
            if byte_len(text) <= byte {
                lemma_all_lines_counted(front);
                lemma_line_number_saturates(front, byte as int);
            }
        } else {
            assert(starts =~= front_starts);
        }
    }
}

/// There is one line more than there are line feeds.
pub proof fn lemma_all_lines_counted(text: Seq<char>)
    ensures
        line_starts(text).len() == line_number(text, byte_len(text) as int) + 1,
    decreases text.len(),
{
    if text.len() > 0 {
        lemma_all_lines_counted(text.drop_last());
        lemma_line_number_saturates(text.drop_last(), byte_len(text) as int);
    }
}

} // verus!
