//! Searching a file on the remote side, a batch of matches at a time.
use vstd::prelude::*;

use crate::error::{io_error_of, ChannelError, FsError};
use crate::json::{array_view, object_view, Json, JsonView};
use crate::model::{FileSearchCursor, FileSearchOptions, SearchMatch};
use crate::protocol::{Params, ParamsView, Request, RequestView};
use crate::remote::RemoteFileSystem;

verus! {

/// The mathematical value of a [`SearchMatch`].
pub struct MatchView {
    pub byte_offset: usize,
    pub length: usize,
    pub line: usize,
    pub column: usize,
    pub context: Seq<char>,
}

impl SearchMatch {
    pub open spec fn view(&self) -> MatchView {
        MatchView {
            byte_offset: self.byte_offset,
            length: self.length,
            line: self.line,
            column: self.column,
            context: self.context@,
        }
    }
}

/// The values of a list of matches.
pub open spec fn match_views(found: Seq<SearchMatch>) -> Seq<MatchView> {
    Seq::new(found.len(), |i: int| found[i]@)
}

/// The fields of the request that continues a search at `cursor`.
pub open spec fn search_fields(
    path: Seq<char>,
    pattern: Seq<char>,
    opts: FileSearchOptions,
    cursor: FileSearchCursor,
) -> Seq<(Seq<char>, JsonView)> {
    let fields = seq![
        ("path"@, JsonView::Str(path)),
        ("pattern"@, JsonView::Str(pattern)),
        ("fixed_string"@, JsonView::Bool(opts.fixed_string)),
        ("case_sensitive"@, JsonView::Bool(opts.case_sensitive)),
        ("whole_word"@, JsonView::Bool(opts.whole_word)),
        ("max_matches"@, JsonView::UInt(opts.max_matches as u64)),
        ("offset"@, JsonView::UInt(cursor.offset as u64)),
        ("running_line"@, JsonView::UInt(cursor.running_line as u64)),
    ];
    match cursor.end_offset {
        Some(end) => fields.push(("end_offset"@, JsonView::UInt(end as u64))),
        None => fields,
    }
}

/// The request that continues a search at `cursor`.
pub open spec fn search_request(
    path: Seq<char>,
    pattern: Seq<char>,
    opts: FileSearchOptions,
    cursor: FileSearchCursor,
) -> RequestView {
    RequestView {
        method: "search_file"@,
        params: ParamsView::Fields(search_fields(path, pattern, opts, cursor)),
    }
}

/// Where an answer leaves the search. An answer that does not say ends it.
pub open spec fn cursor_after(cursor: FileSearchCursor, answer: JsonView) -> FileSearchCursor {
    FileSearchCursor {
        offset: match answer.u64_field("next_offset"@) {
            Some(n) => n as usize,
            None => 0,
        },
        running_line: match answer.u64_field("running_line"@) {
            Some(n) => n as usize,
            None => 1,
        },
        end_offset: cursor.end_offset,
        done: match answer.bool_field("done"@) {
            Some(b) => b,
            None => true,
        },
    }
}

/// The match that an item of the answer describes, where it has every field.
pub open spec fn match_of(item: JsonView) -> Option<MatchView> {
    match (
        item.u64_field("byte_offset"@),
        item.u64_field("length"@),
        item.u64_field("line"@),
        item.u64_field("column"@),
        item.str_field("context"@),
    ) {
        (Some(byte_offset), Some(length), Some(line), Some(column), Some(context)) => Some(
            MatchView {
                byte_offset: byte_offset as usize,
                length: length as usize,
                line: line as usize,
                column: column as usize,
                context,
            },
        ),
        _ => None,
    }
}

/// The matches among `items`, in order.
pub open spec fn matches_among(items: Seq<JsonView>) -> Seq<MatchView>
    decreases items.len(),
{
    if items.len() == 0 {
        Seq::empty()
    } else {
        let before = matches_among(items.drop_last());
        match match_of(items.last()) {
            Some(m) => before.push(m),
            None => before,
        }
    }
}

/// The matches that an answer gives.
pub open spec fn matches_in(answer: JsonView) -> Seq<MatchView> {
    match answer.array_field("matches"@) {
        Some(items) => matches_among(items),
        None => Seq::empty(),
    }
}

fn read_match(item: &Json) -> (found: Option<SearchMatch>)
    ensures
        match found {
            Some(m) => match_of(item@) == Some(m@),
            None => match_of(item@) is None,
        },
{
    match (
        item.u64_field("byte_offset"),
        item.u64_field("length"),
        item.u64_field("line"),
        item.u64_field("column"),
        item.str_field("context"),
    ) {
        (Some(byte_offset), Some(length), Some(line), Some(column), Some(context)) => Some(
            SearchMatch {
                byte_offset: byte_offset as usize,
                length: length as usize,
                line: line as usize,
                column: column as usize,
                context: context.to_owned(),
            },
        ),
        _ => None,
    }
}

fn read_matches(items: &Vec<Json>) -> (found: Vec<SearchMatch>)
    ensures
        match_views(found@) == matches_among(array_view(items@)),
{
    let ghost all = array_view(items@);
    let mut found: Vec<SearchMatch> = Vec::new();
    let mut i: usize = 0;
    assert(match_views(found@) =~= matches_among(all.take(0)));
    while i < items.len()
        invariant
            i <= items.len(),
            all == array_view(items@),
            match_views(found@) == matches_among(all.take(i as int)),
        decreases items.len() - i,
    {
        let ghost next = all.take(i + 1);
        assert(next.drop_last() == all.take(i as int));
        assert(next.last() == items@[i as int]@);
        let ghost before = match_views(found@);
        if let Some(m) = read_match(&items[i]) {
            let ghost value = m@;
            found.push(m);
            assert(match_views(found@) =~= before.push(value));
        }
        i += 1;
    }
    assert(all.take(i as int) == all);
    found
}

impl RemoteFileSystem {
    /// Asks for the next matches of `pattern` in `path`; nothing to ask once the
    /// search is done.
    pub fn search_file(
        &self,
        path: &str,
        pattern: &str,
        opts: &FileSearchOptions,
        cursor: &FileSearchCursor,
    ) -> (question: Option<Request>)
        ensures
            if cursor.done {
                question is None
            } else {
                question matches Some(q) && q@ == search_request(path@, pattern@, *opts, *cursor)
            },
    {
        if cursor.done {
            return None;
        }
        let mut fields = vec![
            ("path".to_owned(), Json::Str(path.to_owned())),
            ("pattern".to_owned(), Json::Str(pattern.to_owned())),
            ("fixed_string".to_owned(), Json::Bool(opts.fixed_string)),
            ("case_sensitive".to_owned(), Json::Bool(opts.case_sensitive)),
            ("whole_word".to_owned(), Json::Bool(opts.whole_word)),
            ("max_matches".to_owned(), Json::UInt(opts.max_matches as u64)),
            ("offset".to_owned(), Json::UInt(cursor.offset as u64)),
            ("running_line".to_owned(), Json::UInt(cursor.running_line as u64)),
        ];
        if let Some(end) = cursor.end_offset {
            fields.push(("end_offset".to_owned(), Json::UInt(end as u64)));
        }
        assert(object_view(fields@) =~= search_fields(path@, pattern@, *opts, *cursor));
        Some(Request { method: "search_file", params: Params::Fields(fields) })
    }

    /// The matches of the answer, and the cursor moved on. A failed request
    /// leaves the cursor where it was.
    pub fn search_file_reply(
        cursor: &mut FileSearchCursor,
        reply: Result<Json, ChannelError>,
    ) -> (found: Result<Vec<SearchMatch>, FsError>)
        ensures
            match reply {
                Ok(answer) => {
                    &&& found matches Ok(list)
                    &&& match_views(list@) == matches_in(answer@)
                    &&& *final(cursor) == cursor_after(*old(cursor), answer@)
                },
                Err(e) => {
                    &&& found matches Err(x)
                    &&& x@ == io_error_of(e@)
                    &&& *final(cursor) == *old(cursor)
                },
            },
    {
        match reply {
            Ok(answer) => {
                cursor.offset = match answer.u64_field("next_offset") {
                    Some(n) => n as usize,
                    None => 0,
                };
                cursor.running_line = match answer.u64_field("running_line") {
                    Some(n) => n as usize,
                    None => 1,
                };
                cursor.done = match answer.bool_field("done") {
                    Some(b) => b,
                    None => true,
                };
                match answer.array_field("matches") {
                    Some(items) => Ok(read_matches(items)),
                    None => {
                        let none: Vec<SearchMatch> = Vec::new();
                        assert(match_views(none@) =~= Seq::empty());
                        Ok(none)
                    },
                }
            },
            Err(e) => Err(Self::to_io_error(e)),
        }
    }
}

/// No answer moves the end of the searched range.
pub proof fn law_search_end_is_kept(cursor: FileSearchCursor, answer: JsonView)
    ensures
        cursor_after(cursor, answer).end_offset == cursor.end_offset,
{
}

/// An answer never gives more matches than it lists items, and every match
/// stands for one of them.
pub proof fn law_matches_are_listed(items: Seq<JsonView>)
    ensures
        matches_among(items).len() <= items.len(),
        forall|k: int|
            0 <= k < matches_among(items).len() ==> exists|i: int|
                0 <= i < items.len() && match_of(#[trigger] items[i]) == Some(
                    #[trigger] matches_among(items)[k],
                ),
    decreases items.len(),
{
    if items.len() > 0 {
        let front = items.drop_last();
        law_matches_are_listed(front);
        assert forall|k: int| 0 <= k < matches_among(items).len() implies exists|i: int|
            0 <= i < items.len() && match_of(#[trigger] items[i]) == Some(
                #[trigger] matches_among(items)[k],
            ) by {
            if k < matches_among(front).len() {
                let i = choose|i: int|
                    0 <= i < front.len() && match_of(#[trigger] front[i]) == Some(
                        matches_among(front)[k],
                    );
                assert(items[i] == front[i]);
            } else {
                assert(match_of(items[items.len() - 1]) == Some(matches_among(items)[k]));
            }
        }
    }
}

} // verus!
