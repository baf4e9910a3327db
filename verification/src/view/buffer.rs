//! Text with byte offsets and logical lines.
use vstd::prelude::*;
use vstd::utf8::{encode_scalar, encode_utf8};

use crate::text::chars_of;

verus! {

/// How many bytes `c` takes in UTF-8.
pub open spec fn utf8_len(c: char) -> nat {
    let n = c as u32;
    if n < 0x80 {
        1
    } else if n < 0x800 {
        2
    } else if n < 0x10000 {
        3
    } else {
        4
    }
}

/// How many bytes `text` takes in UTF-8.
pub open spec fn byte_len(text: Seq<char>) -> nat
    decreases text.len(),
{
    if text.len() == 0 {
        0
    } else {
        byte_len(text.drop_last()) + utf8_len(text.last())
    }
}

/// How many line feeds start before the byte offset `byte`: the number of the
/// line that `byte` lies in, counted from zero.
pub open spec fn line_number(text: Seq<char>, byte: int) -> nat
    decreases text.len(),
{
    if text.len() == 0 {
        0
    } else {
        let before = line_number(text.drop_last(), byte);
        if text.last() == '\n' && byte_len(text.drop_last()) < byte {
            before + 1
        } else {
            before
        }
    }
}

/// The byte offsets at which lines start: the first at zero, each other one
/// behind a line feed.
pub open spec fn line_starts(text: Seq<char>) -> Seq<nat>
    decreases text.len(),
{
    if text.len() == 0 {
        seq![0]
    } else if text.last() == '\n' {
        line_starts(text.drop_last()).push(byte_len(text))
    } else {
        line_starts(text.drop_last())
    }
}

/// The index of the first character of the line that `byte` lies in.
pub open spec fn line_begin(text: Seq<char>, byte: int) -> int
    decreases text.len(),
{
    if text.len() == 0 {
        0
    } else if text.last() == '\n' && byte_len(text.drop_last()) < byte {
        text.len() as int
    } else {
        line_begin(text.drop_last(), byte)
    }
}

/// The index behind the line that starts at character `from`: behind its line
/// feed, or at the end.
pub open spec fn line_end(text: Seq<char>, from: int) -> int
    decreases text.len() - from,
{
    if from >= text.len() {
        text.len() as int
    } else if from < 0 || text[from] == '\n' {
        from + 1
    } else {
        line_end(text, from + 1)
    }
}

/// A line without the line feed that ends it, and without a carriage return
/// before that line feed or at its end.
pub open spec fn without_terminator(line: Seq<char>) -> Seq<char> {
    let text = if line.len() > 0 && line.last() == '\n' {
        line.drop_last()
    } else {
        line
    };
    if text.len() > 0 && text.last() == '\r' {
        text.drop_last()
    } else {
        text
    }
}

pub proof fn lemma_encoded_len(text: Seq<char>)
    ensures
        encode_utf8(text).len() == byte_len(text),
    decreases text.len(),
{
    if text.len() > 0 {
        lemma_encoded_len(text.drop_last());
        lemma_encoded_append(text.drop_last(), text.last());
        assert(text.drop_last().push(text.last()) == text);
    }
}

proof fn lemma_encoded_append(text: Seq<char>, c: char)
    ensures
        encode_utf8(text.push(c)).len() == encode_utf8(text).len() + utf8_len(c),
    decreases text.len(),
{
    broadcast use vstd::utf8::char_is_scalar;

    assert(encode_scalar(c as u32).len() == utf8_len(c));
    if text.len() == 0 {
        assert(text.push(c).drop_first() == text);
        assert(encode_utf8(text).len() == 0);
    } else {
        assert(text.push(c)[0] == text[0]);
        lemma_encoded_append(text.drop_first(), c);
        assert(text.push(c).drop_first() == text.drop_first().push(c));
    }
}

pub proof fn lemma_byte_len_monotone(text: Seq<char>, i: int, j: int)
    requires
        0 <= i <= j <= text.len(),
    ensures
        byte_len(text.take(i)) + (j - i) <= byte_len(text.take(j)),
    decreases j - i,
{
    if i < j {
        lemma_byte_len_monotone(text, i, j - 1);
        assert(text.take(j).drop_last() == text.take(j - 1));
    }
}

proof fn lemma_line_number_bound(text: Seq<char>, byte: int)
    requires
        byte >= 0,
    ensures
        line_number(text, byte) <= byte,
        line_number(text, byte) <= byte_len(text),
    decreases text.len(),
{
    if text.len() > 0 {
        lemma_line_number_bound(text.drop_last(), byte);
        if text.last() == '\n' && byte_len(text.drop_last()) < byte {
            lemma_line_number_bound(text.drop_last(), byte_len(text.drop_last()) as int);
            lemma_line_number_saturates(text.drop_last(), byte);
        }
    }
}

/// Behind the end of the text the line number no longer grows.
pub proof fn lemma_line_number_saturates(text: Seq<char>, byte: int)
    requires
        byte >= byte_len(text),
    ensures
        line_number(text, byte) == line_number(text, byte_len(text) as int),
    decreases text.len(),
{
    if text.len() > 0 {
        let front = text.drop_last();
        lemma_line_number_saturates(front, byte);
        lemma_line_number_saturates(front, byte_len(text) as int);
    }
}

/// Lines are numbered in the order of the text.
pub proof fn law_line_numbers_grow(text: Seq<char>, a: int, b: int)
    requires
        a <= b,
    ensures
        line_number(text, a) <= line_number(text, b),
    decreases text.len(),
{
    if text.len() > 0 {
        law_line_numbers_grow(text.drop_last(), a, b);
    }
}

/// The text of a buffer.
pub struct TextBuffer {
    chars: Vec<char>,
}

impl TextBuffer {
    pub closed spec fn view(&self) -> Seq<char> {
        self.chars@
    }

    #[verifier::type_invariant]
    spec fn wf(self) -> bool {
        byte_len(self.chars@) <= usize::MAX
    }

    /// A buffer that holds `text`.
    pub fn from_text(text: &str) -> (buffer: TextBuffer)
        ensures
            buffer@ == text@,
    {
        let bytes = text.as_bytes();
        let n: usize = bytes.len();
        proof {
            lemma_encoded_len(text@);
        }
        assert(byte_len(text@) == n);
        TextBuffer { chars: chars_of(text) }
    }

    /// The number of bytes of the text.
    pub fn len(&self) -> (n: usize)
        ensures
            n == byte_len(self@),
    {
        proof {
            use_type_invariant(self);
        }
        let mut n: usize = 0;
        let mut i: usize = 0;
        while i < self.chars.len()
            invariant
                i <= self.chars.len(),
                n == byte_len(self.chars@.take(i as int)),
                byte_len(self.chars@) <= usize::MAX,
            decreases self.chars.len() - i,
        {
            proof {
                lemma_byte_len_monotone(self.chars@, i + 1, self.chars@.len() as int);
                assert(self.chars@.take(i + 1).drop_last() == self.chars@.take(i as int));
                assert(self.chars@.take(self.chars@.len() as int) == self.chars@);
            }
            n = n + char_bytes(self.chars[i]);
            i += 1;
        }
        assert(self.chars@.take(i as int) == self.chars@);
        n
    }

    /// Whether there is no text.
    pub fn is_empty(&self) -> (empty: bool)
        ensures
            empty == (self@.len() == 0),
    {
        self.chars.len() == 0
    }

    /// The number of characters of the text.
    pub fn char_count(&self) -> (n: usize)
        ensures
            n == self@.len(),
    {
        self.chars.len()
    }

    /// The number of the line that the byte offset `byte` lies in, counted from
    /// zero. An offset behind the end lies in the last line.
    pub fn get_line_number(&self, byte: usize) -> (line: usize)
        ensures
            line == line_number(self@, byte as int),
            line <= byte,
    {
        proof {
            use_type_invariant(self);
            lemma_line_number_bound(self@, byte as int);
        }
        let mut line: usize = 0;
        let mut offset: usize = 0;
        let mut i: usize = 0;
        while i < self.chars.len()
            invariant
                i <= self.chars.len(),
                offset == byte_len(self.chars@.take(i as int)),
                line == line_number(self.chars@.take(i as int), byte as int),
                byte_len(self.chars@) <= usize::MAX,
            decreases self.chars.len() - i,
        {
            proof {
                lemma_byte_len_monotone(self.chars@, i + 1, self.chars@.len() as int);
                assert(self.chars@.take(i + 1).drop_last() == self.chars@.take(i as int));
                assert(self.chars@.take(self.chars@.len() as int) == self.chars@);
                lemma_line_number_bound(self.chars@.take(i + 1), byte as int);
            }
            if self.chars[i] == '\n' && offset < byte {
                line += 1;
            }
            offset = offset + char_bytes(self.chars[i]);
            i += 1;
        }
        assert(self.chars@.take(i as int) == self.chars@);
        line
    }

    /// The byte offsets at which lines start.
    pub fn line_start_offsets(&self) -> (starts: Vec<usize>)
        ensures
            offsets(starts@) == line_starts(self@),
    {
        proof {
            use_type_invariant(self);
        }
        let mut starts: Vec<usize> = Vec::new();
        starts.push(0);
        let mut offset: usize = 0;
        let mut i: usize = 0;
        assert(offsets(starts@) == line_starts(self.chars@.take(0)));
        while i < self.chars.len()
            invariant
                i <= self.chars.len(),
                offset == byte_len(self.chars@.take(i as int)),
                offsets(starts@) == line_starts(self.chars@.take(i as int)),
                byte_len(self.chars@) <= usize::MAX,
            decreases self.chars.len() - i,
        {
            proof {
                lemma_byte_len_monotone(self.chars@, i + 1, self.chars@.len() as int);
                assert(self.chars@.take(i + 1).drop_last() == self.chars@.take(i as int));
                assert(self.chars@.take(self.chars@.len() as int) == self.chars@);
            }
            let ghost before = offsets(starts@);
            offset = offset + char_bytes(self.chars[i]);
            if self.chars[i] == '\n' {
                starts.push(offset);
                assert(offsets(starts@) == before.push(offset as nat));
            }
            i += 1;
        }
        assert(self.chars@.take(i as int) == self.chars@);
        starts
    }

    /// The index of the first character of the line that `byte` lies in.
    pub fn line_begin_at(&self, byte: usize) -> (begin: usize)
        ensures
            begin == line_begin(self@, byte as int),
            begin <= self@.len(),
    {
        proof {
            use_type_invariant(self);
        }
        let mut begin: usize = 0;
        let mut offset: usize = 0;
        let mut i: usize = 0;
        while i < self.chars.len()
            invariant
                i <= self.chars.len(),
                begin <= i,
                offset == byte_len(self.chars@.take(i as int)),
                begin == line_begin(self.chars@.take(i as int), byte as int),
                byte_len(self.chars@) <= usize::MAX,
            decreases self.chars.len() - i,
        {
            proof {
                lemma_byte_len_monotone(self.chars@, i + 1, self.chars@.len() as int);
                assert(self.chars@.take(i + 1).drop_last() == self.chars@.take(i as int));
                assert(self.chars@.take(self.chars@.len() as int) == self.chars@);
            }
            if self.chars[i] == '\n' && offset < byte {
                begin = i + 1;
            }
            offset = offset + char_bytes(self.chars[i]);
            i += 1;
        }
        assert(self.chars@.take(i as int) == self.chars@);
        begin
    }

    /// The index behind the line that starts at character `from`.
    pub fn line_end_at(&self, from: usize) -> (end: usize)
        requires
            from < self@.len(),
        ensures
            end == line_end(self@, from as int),
            from < end <= self@.len(),
    {
        let mut i: usize = from;
        while self.chars[i] != '\n'
            invariant
                from <= i < self.chars.len(),
                line_end(self.chars@, from as int) == line_end(self.chars@, i as int),
            decreases self.chars.len() - i,
        {
            if i + 1 == self.chars.len() {
                assert(line_end(self.chars@, i as int) == line_end(self.chars@, i + 1));
                return i + 1;
            }
            i += 1;
        }
        i + 1
    }

    /// The characters from index `from` to before index `to`.
    pub fn slice(&self, from: usize, to: usize) -> (part: &[char])
        requires
            from <= to <= self@.len(),
        ensures
            part@ == self@.subrange(from as int, to as int),
    {
        vstd::slice::slice_subrange(self.chars.as_slice(), from, to)
    }
}

/// Byte offsets as numbers.
pub open spec fn offsets(list: Seq<usize>) -> Seq<nat> {
    Seq::new(list.len(), |i: int| list[i] as nat)
}

fn char_bytes(c: char) -> (n: usize)
    ensures
        n == utf8_len(c),
        1 <= n <= 4,
{
    let code: u32 = c as u32;
    if code < 0x80 {
        1
    } else if code < 0x800 {
        2
    } else if code < 0x10000 {
        3
    } else {
        4
    }
}

/// A line without its terminator.
pub fn strip_terminator(line: &[char]) -> (text: &[char])
    ensures
        text@ == without_terminator(line@),
{
    let mut n: usize = line.len();
    if n > 0 && line[n - 1] == '\n' {
        n = n - 1;
    }
    let ghost body = line@.take(n as int);
    assert(body == if line@.len() > 0 && line@.last() == '\n' {
        line@.drop_last()
    } else {
        line@
    });
    if n > 0 && line[n - 1] == '\r' {
        n = n - 1;
    }
    assert(line@.subrange(0, n as int) == without_terminator(line@));
    vstd::slice::slice_subrange(line, 0, n)
}

} // verus!
