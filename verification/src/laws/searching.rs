//! Searching a file on the remote side.
use vstd::prelude::*;

use crate::error::FsError;
use crate::json::{Json, JsonView};
use crate::laws::requests::{has_fields, lemma_fields};
use crate::model::{FileSearchCursor, FileSearchOptions, SearchMatch};
use crate::protocol::Request;
use crate::remote::search::{match_of, match_views, matches_among};
use crate::remote::RemoteFileSystem;

verus! {

/// A search that is not done is continued where its cursor stands: the request names
/// the file, the pattern, every option, and where to go on, up to the end of the
/// range where it has one. A search that is done asks for nothing.
pub proof fn law_search_goes_on_at_the_cursor(
    fs: &RemoteFileSystem,
    path: &str,
    pattern: &str,
    opts: &FileSearchOptions,
    cursor: &FileSearchCursor,
    q: Option<Request>,
)
    requires
        call_ensures(RemoteFileSystem::search_file, (fs, path, pattern, opts, cursor), q),
    ensures
        cursor.done <==> q is None,
        q matches Some(question) ==> {
            let common = seq![
                ("path"@, JsonView::Str(path@)),
                ("pattern"@, JsonView::Str(pattern@)),
                ("fixed_string"@, JsonView::Bool(opts.fixed_string)),
                ("case_sensitive"@, JsonView::Bool(opts.case_sensitive)),
                ("whole_word"@, JsonView::Bool(opts.whole_word)),
                ("max_matches"@, JsonView::UInt(opts.max_matches as u64)),
                ("offset"@, JsonView::UInt(cursor.offset as u64)),
                ("running_line"@, JsonView::UInt(cursor.running_line as u64)),
            ];
            has_fields(
                question,
                "search_file"@,
                match cursor.end_offset {
                    Some(end) => common.push(("end_offset"@, JsonView::UInt(end as u64))),
                    None => common,
                },
            )
        },
{
    if let Some(question) = q {
        lemma_fields(question);
    }
}

/// An answer moves the cursor to where the agent says, and ends the search where it
/// says so or does not say. The range stays as it was.
pub proof fn law_answer_moves_the_cursor(
    cursor: &mut FileSearchCursor,
    answer: Json,
    found: Result<Vec<SearchMatch>, FsError>,
)
    requires
        call_ensures(RemoteFileSystem::search_file_reply, (cursor, Ok(answer)), found),
    ensures
        found is Ok,
        match answer@.u64_field("next_offset"@) {
            Some(n) => final(cursor).offset == n as usize,
            None => final(cursor).offset == 0,
        },
        match answer@.u64_field("running_line"@) {
            Some(n) => final(cursor).running_line == n as usize,
            None => final(cursor).running_line == 1,
        },
        final(cursor).done <==> answer@.bool_field("done"@) != Some(false),
        final(cursor).end_offset == old(cursor).end_offset,
{
}

/// Whether an item describes a match in full.
pub open spec fn is_complete(item: JsonView) -> bool {
    &&& item.u64_field("byte_offset"@) is Some
    &&& item.u64_field("length"@) is Some
    &&& item.u64_field("line"@) is Some
    &&& item.u64_field("column"@) is Some
    &&& item.str_field("context"@) is Some
}

/// Whether each field of `m` is the item's field of the same name.
pub open spec fn is_match_of(m: SearchMatch, item: JsonView) -> bool {
    &&& item.u64_field("byte_offset"@) matches Some(byte_offset)
    &&& m.byte_offset == byte_offset as usize
    &&& item.u64_field("length"@) matches Some(length)
    &&& m.length == length as usize
    &&& item.u64_field("line"@) matches Some(line)
    &&& m.line == line as usize
    &&& item.u64_field("column"@) matches Some(column)
    &&& m.column == column as usize
    &&& item.str_field("context"@) matches Some(context)
    &&& m.context@ == context
}

/// The places of the complete items, in order.
pub open spec fn complete_places(items: Seq<JsonView>) -> Seq<int>
    decreases items.len(),
{
    if items.len() == 0 {
        Seq::empty()
    } else {
        let before = complete_places(items.drop_last());
        if is_complete(items.last()) {
            before.push(items.len() - 1)
        } else {
            before
        }
    }
}

/// The places ascend, and a place is among them exactly where its item is complete.
pub proof fn lemma_complete_places(items: Seq<JsonView>)
    ensures
        forall|k: int|
            0 <= k < complete_places(items).len() ==> 0 <= #[trigger] complete_places(items)[k]
                < items.len() && is_complete(items[complete_places(items)[k]]),
        forall|j: int, k: int|
            0 <= j < k < complete_places(items).len() ==> complete_places(items)[j]
                < complete_places(items)[k],
        forall|i: int|
            0 <= i < items.len() && is_complete(#[trigger] items[i]) ==> complete_places(
                items,
            ).contains(i),
    decreases items.len(),
{
    if items.len() > 0 {
        let front = items.drop_last();
        let before = complete_places(front);
        lemma_complete_places(front);
        assert forall|k: int| 0 <= k < complete_places(items).len() implies 0
            <= #[trigger] complete_places(items)[k] < items.len() && is_complete(
            items[complete_places(items)[k]],
        ) by {
            if k < before.len() {
                assert(before[k] == complete_places(items)[k]);
                assert(front[before[k]] == items[before[k]]);
            }
        }
        assert forall|i: int| 0 <= i < items.len() && is_complete(#[trigger] items[i]) implies
            complete_places(items).contains(i) by {
            if i < front.len() {
                assert(front[i] == items[i]);
                let k = choose|k: int| 0 <= k < before.len() && before[k] == i;
                assert(complete_places(items)[k] == i);
            } else {
                assert(complete_places(items)[before.len() as int] == i);
            }
        }
    }
}

proof fn lemma_matches_at_places(items: Seq<JsonView>)
    ensures
        matches_among(items).len() == complete_places(items).len(),
        forall|k: int|
            0 <= k < matches_among(items).len() ==> match_of(
                items[#[trigger] complete_places(items)[k]],
            ) == Some(matches_among(items)[k]),
    decreases items.len(),
{
    if items.len() > 0 {
        let front = items.drop_last();
        lemma_matches_at_places(front);
        lemma_complete_places(front);
        assert forall|k: int| 0 <= k < matches_among(items).len() implies match_of(
            items[#[trigger] complete_places(items)[k]],
        ) == Some(matches_among(items)[k]) by {
            if k < matches_among(front).len() {
                assert(complete_places(front)[k] == complete_places(items)[k]);
                assert(front[complete_places(front)[k]] == items[complete_places(items)[k]]);
            }
        }
    }
}

/// An answer gives one match for each item that describes one in full, in order and
/// field by field; other items give none.
pub proof fn law_matches_are_the_complete_items(
    cursor: &mut FileSearchCursor,
    answer: Json,
    items: Seq<JsonView>,
    found: Result<Vec<SearchMatch>, FsError>,
)
    requires
        call_ensures(RemoteFileSystem::search_file_reply, (cursor, Ok(answer)), found),
        answer@.array_field("matches"@) == Some(items),
    ensures
        found matches Ok(list) && {
            &&& list@.len() == complete_places(items).len()
            &&& forall|k: int|
                0 <= k < list@.len() ==> is_match_of(
                    #[trigger] list@[k],
                    items[complete_places(items)[k]],
                )
        },
        forall|j: int, k: int|
            0 <= j < k < complete_places(items).len() ==> complete_places(items)[j]
                < complete_places(items)[k],
        forall|i: int|
            0 <= i < items.len() ==> (is_complete(#[trigger] items[i]) <==> complete_places(
                items,
            ).contains(i)),
{
    lemma_complete_places(items);
    lemma_matches_at_places(items);
    if let Ok(list) = found {
        assert(match_views(list@) == matches_among(items));
        assert forall|k: int| 0 <= k < list@.len() implies is_match_of(
            #[trigger] list@[k],
            items[complete_places(items)[k]],
        ) by {
            assert(match_views(list@)[k] == list@[k]@);
            let place = complete_places(items)[k];
            assert(match_of(items[place]) == Some(matches_among(items)[k]));
        }
    }
    assert forall|i: int| 0 <= i < items.len() implies (is_complete(#[trigger] items[i])
        <==> complete_places(items).contains(i)) by {
        if complete_places(items).contains(i) {
            let k = choose|k: int|
                0 <= k < complete_places(items).len() && complete_places(items)[k] == i;
        }
    }
}

/// An answer without a list of matches gives none.
pub proof fn law_answer_without_matches_gives_none(
    cursor: &mut FileSearchCursor,
    answer: Json,
    found: Result<Vec<SearchMatch>, FsError>,
)
    requires
        call_ensures(RemoteFileSystem::search_file_reply, (cursor, Ok(answer)), found),
        answer@.array_field("matches"@) is None,
    ensures
        found matches Ok(list) && list@.len() == 0,
{
    if let Ok(list) = found {
        assert(match_views(list@).len() == list@.len());
    }
}

} // verus!
