//! Text and its logical lines.
use vstd::prelude::*;
use vstd::utf8::encode_utf8;

use crate::view::buffer::{
    byte_len, lemma_encoded_len, lemma_line_number_saturates, line_begin, line_end, line_number,
    line_starts, offsets, strip_terminator, TextBuffer,
};

verus! {

/// A buffer holds the text that it was made from: its characters, and as many bytes
/// as the text has in UTF-8.
pub proof fn law_buffer_holds_its_text(
    text: &str,
    buffer: TextBuffer,
    bytes: usize,
    chars: usize,
    empty: bool,
)
    requires
        call_ensures(TextBuffer::from_text, (text,), buffer),
        call_ensures(TextBuffer::len, (&buffer,), bytes),
        call_ensures(TextBuffer::char_count, (&buffer,), chars),
        call_ensures(TextBuffer::is_empty, (&buffer,), empty),
    ensures
        buffer@ == text@,
        bytes == encode_utf8(text@).len(),
        chars == text@.len(),
        empty <==> text@.len() == 0,
{
    lemma_encoded_len(text@);
}

/// A part of a buffer is cut out character by character.
pub proof fn law_slice_is_cut_out(buffer: &TextBuffer, from: usize, to: usize, part: &[char])
    requires
        from <= to <= buffer@.len(),
        call_ensures(TextBuffer::slice, (buffer, from, to), part),
    ensures
        part@.len() == to - from,
        forall|i: int| 0 <= i < to - from ==> part@[i] == buffer@[from + i],
{
}

proof fn lemma_byte_len_add(a: Seq<char>, b: Seq<char>)
    ensures
        byte_len(a + b) == byte_len(a) + byte_len(b),
    decreases b.len(),
{
    if b.len() == 0 {
        assert(a + b =~= a);
    } else {
        lemma_byte_len_add(a, b.drop_last());
        assert((a + b).drop_last() =~= a + b.drop_last());
    }
}

proof fn lemma_byte_len_feed()
    ensures
        byte_len(seq!['\n']) == 1,
{
    assert(seq!['\n'].drop_last() =~= Seq::empty());
    assert(byte_len(Seq::empty()) == 0);
}

proof fn lemma_no_feed(text: Seq<char>, byte: int)
    requires
        !text.contains('\n'),
    ensures
        line_number(text, byte) == 0,
        line_starts(text) == seq![0nat],
    decreases text.len(),
{
    if text.len() > 0 {
        let front = text.drop_last();
        assert forall|i: int| 0 <= i < front.len() implies front[i] != '\n' by {
            assert(text.contains(text[i]));
        }
        lemma_no_feed(front, byte);
        assert(text.contains(text.last()));
    }
}

proof fn lemma_line_number_split(a: Seq<char>, b: Seq<char>, byte: int)
    ensures
        byte <= byte_len(a) ==> line_number(a + seq!['\n'] + b, byte) == line_number(a, byte),
        byte > byte_len(a) ==> line_number(a + seq!['\n'] + b, byte) == line_number(
            a,
            byte_len(a) as int,
        ) + 1 + line_number(b, byte - byte_len(a) - 1),
    decreases b.len(),
{
    let whole = a + seq!['\n'] + b;
    lemma_byte_len_feed();
    if b.len() == 0 {
        assert(whole.drop_last() =~= a);
        assert(whole.last() == '\n');
        if byte > byte_len(a) {
            lemma_line_number_saturates(a, byte);
        }
    } else {
        let front = b.drop_last();
        lemma_line_number_split(a, front, byte);
        assert(whole.drop_last() =~= a + seq!['\n'] + front);
        assert(whole.last() == b.last());
        lemma_byte_len_add(a + seq!['\n'], front);
        lemma_byte_len_add(a, seq!['\n']);
    }
}

proof fn lemma_line_starts_split(a: Seq<char>, b: Seq<char>)
    ensures
        line_starts(a + seq!['\n'] + b) == line_starts(a) + Seq::new(
            line_starts(b).len(),
            |i: int| (line_starts(b)[i] + byte_len(a) + 1) as nat,
        ),
    decreases b.len(),
{
    let whole = a + seq!['\n'] + b;
    let moved = Seq::new(
        line_starts(b).len(),
        |i: int| (line_starts(b)[i] + byte_len(a) + 1) as nat,
    );
    lemma_byte_len_feed();
    lemma_byte_len_add(a, seq!['\n']);
    lemma_byte_len_add(a + seq!['\n'], b);
    if b.len() == 0 {
        assert(whole.drop_last() =~= a);
        assert(whole.last() == '\n');
        assert(b =~= Seq::empty());
        assert(line_starts(whole) =~= line_starts(a) + moved);
    } else {
        let front = b.drop_last();
        lemma_line_starts_split(a, front);
        assert(whole.drop_last() =~= a + seq!['\n'] + front);
        assert(whole.last() == b.last());
        assert(line_starts(whole) =~= line_starts(a) + moved);
    }
}

/// A text without line feeds is one line, number zero, that starts at the first
/// byte.
pub proof fn law_text_without_feeds_is_one_line(
    buffer: &TextBuffer,
    byte: usize,
    line: usize,
    starts: Vec<usize>,
)
    requires
        !buffer@.contains('\n'),
        call_ensures(TextBuffer::get_line_number, (buffer, byte), line),
        call_ensures(TextBuffer::line_start_offsets, (buffer,), starts),
    ensures
        line == 0,
        starts@ == seq![0usize],
{
    lemma_no_feed(buffer@, byte as int);
    assert(offsets(starts@).len() == 1);
    assert(offsets(starts@)[0] == 0);
    assert(starts@ =~= seq![0usize]);
}

/// A line feed parts two texts: up to it the lines of the first are numbered as
/// before; behind it those of the second follow on them.
pub proof fn law_line_feed_starts_the_next_line(
    whole: &TextBuffer,
    first: &TextBuffer,
    second: &TextBuffer,
    first_len: usize,
    byte: usize,
    rest: usize,
    line: usize,
    in_first: usize,
    first_last: usize,
    in_second: usize,
)
    requires
        whole@ == first@ + seq!['\n'] + second@,
        call_ensures(TextBuffer::len, (first,), first_len),
        call_ensures(TextBuffer::get_line_number, (whole, byte), line),
        call_ensures(TextBuffer::get_line_number, (first, byte), in_first),
        call_ensures(TextBuffer::get_line_number, (first, first_len), first_last),
        call_ensures(TextBuffer::get_line_number, (second, rest), in_second),
    ensures
        byte <= first_len ==> line == in_first,
        byte > first_len && rest == byte - first_len - 1 ==> line == first_last + 1 + in_second,
{
    lemma_line_number_split(first@, second@, byte as int);
}

/// The lines of the second text start as far behind the line feed as they started
/// before.
pub proof fn law_lines_start_behind_line_feeds(
    whole: &TextBuffer,
    first: &TextBuffer,
    second: &TextBuffer,
    first_len: usize,
    starts: Vec<usize>,
    first_starts: Vec<usize>,
    second_starts: Vec<usize>,
)
    requires
        whole@ == first@ + seq!['\n'] + second@,
        call_ensures(TextBuffer::len, (first,), first_len),
        call_ensures(TextBuffer::line_start_offsets, (whole,), starts),
        call_ensures(TextBuffer::line_start_offsets, (first,), first_starts),
        call_ensures(TextBuffer::line_start_offsets, (second,), second_starts),
    ensures
        starts@.len() == first_starts@.len() + second_starts@.len(),
        forall|i: int| 0 <= i < first_starts@.len() ==> starts@[i] == first_starts@[i],
        forall|i: int|
            0 <= i < second_starts@.len() ==> #[trigger] starts@[first_starts@.len() + i]
                == second_starts@[i] + first_len + 1,
{
    lemma_line_starts_split(first@, second@);
    let all = line_starts(whole@);
    assert(offsets(starts@) == all);
    assert forall|i: int| 0 <= i < first_starts@.len() implies starts@[i] == first_starts@[i] by {
        assert(offsets(starts@)[i] == starts@[i]);
        assert(offsets(first_starts@)[i] == first_starts@[i]);
    }
    assert forall|i: int| 0 <= i < second_starts@.len() implies #[trigger] starts@[
        first_starts@.len() + i
    ] == second_starts@[i] + first_len + 1 by {
        let at = first_starts@.len() + i;
        assert(offsets(starts@)[at] == starts@[at]);
        assert(offsets(second_starts@)[i] == second_starts@[i]);
        assert(offsets(first_starts@).len() == first_starts@.len());
    }
}

/// The bytes of a text before its character `k`.
pub open spec fn bytes_before(text: Seq<char>, k: int) -> int {
    encode_utf8(text.take(k)).len() as int
}

proof fn lemma_line_begin(text: Seq<char>, byte: int)
    requires
        byte >= 0,
    ensures
        0 <= line_begin(text, byte) <= text.len(),
        line_begin(text, byte) > 0 ==> text[line_begin(text, byte) - 1] == '\n' && byte_len(
            text.take(line_begin(text, byte) - 1),
        ) < byte,
        forall|k: int|
            line_begin(text, byte) <= k < text.len() && #[trigger] text[k] == '\n' ==> byte_len(
                text.take(k),
            ) >= byte,
    decreases text.len(),
{
    if text.len() > 0 {
        let front = text.drop_last();
        assert(text.take(text.len() - 1) =~= front);
        if !(text.last() == '\n' && byte_len(front) < byte) {
            lemma_line_begin(front, byte);
            let begin = line_begin(front, byte);
            if begin > 0 {
                assert(front.take(begin - 1) =~= text.take(begin - 1));
            }
            assert forall|k: int|
                begin <= k < text.len() && #[trigger] text[k] == '\n' implies byte_len(
                text.take(k),
            ) >= byte by {
                if k < front.len() {
                    assert(front[k] == text[k]);
                    assert(front.take(k) =~= text.take(k));
                }
            }
        }
    }
}

/// The line of a byte begins behind the last line feed before that byte, or at the
/// start where there is none.
pub proof fn law_line_begins_behind_the_last_feed(buffer: &TextBuffer, byte: usize, begin: usize)
    requires
        call_ensures(TextBuffer::line_begin_at, (buffer, byte), begin),
    ensures
        begin <= buffer@.len(),
        begin > 0 ==> buffer@[begin - 1] == '\n' && bytes_before(buffer@, begin - 1) < byte,
        forall|k: int|
            begin <= k < buffer@.len() && #[trigger] buffer@[k] == '\n' ==> bytes_before(
                buffer@,
                k,
            ) >= byte,
{
    lemma_line_begin(buffer@, byte as int);
    if begin > 0 {
        lemma_encoded_len(buffer@.take(begin - 1));
    }
    assert forall|k: int|
        begin <= k < buffer@.len() && #[trigger] buffer@[k] == '\n' implies bytes_before(
        buffer@,
        k,
    ) >= byte by {
        lemma_encoded_len(buffer@.take(k));
    }
}

proof fn lemma_line_end(text: Seq<char>, from: int)
    requires
        0 <= from < text.len(),
    ensures
        from < line_end(text, from) <= text.len(),
        forall|k: int| from <= k < line_end(text, from) - 1 ==> #[trigger] text[k] != '\n',
        line_end(text, from) < text.len() ==> text[line_end(text, from) - 1] == '\n',
    decreases text.len() - from,
{
    reveal_with_fuel(line_end, 2);
    if text[from] != '\n' && from + 1 < text.len() {
        lemma_line_end(text, from + 1);
    }
}

/// A line ends behind the first line feed in it, or with the text.
pub proof fn law_line_ends_behind_its_feed(buffer: &TextBuffer, from: usize, end: usize)
    requires
        from < buffer@.len(),
        call_ensures(TextBuffer::line_end_at, (buffer, from), end),
    ensures
        from < end <= buffer@.len(),
        forall|k: int| from <= k < end - 1 ==> #[trigger] buffer@[k] != '\n',
        end < buffer@.len() ==> buffer@[end - 1] == '\n',
{
    lemma_line_end(buffer@, from as int);
}

/// A line loses the line feed at its end, and a carriage return before that or at
/// its end, and nothing else.
pub proof fn law_terminators_are_cut_off(line: &[char], kept: Seq<char>, text: &[char])
    requires
        call_ensures(strip_terminator, (line,), text),
    ensures
        line@ == kept + seq!['\r', '\n'] ==> text@ == kept,
        line@ == kept + seq!['\n'] && (kept.len() == 0 || kept.last() != '\r') ==> text@ == kept,
        line@ == kept + seq!['\r'] ==> text@ == kept,
        line@ == kept && (kept.len() == 0 || kept.last() != '\r' && kept.last() != '\n')
            ==> text@ == kept,
{
    if line@ == kept + seq!['\r', '\n'] {
        assert(line@.drop_last() =~= kept + seq!['\r']);
        assert((kept + seq!['\r']).drop_last() =~= kept);
    }
    if line@ == kept + seq!['\n'] {
        assert(line@.drop_last() =~= kept);
    }
    if line@ == kept + seq!['\r'] {
        assert(line@.drop_last() =~= kept);
    }
}

} // verus!
