//! Files fetched ahead of their first use.
use vstd::prelude::*;

use crate::json::JsonView;
use crate::laws::requests::{has_fields, lemma_fields};
use crate::laws::reading::{
    asks_for_contents, carry_all, is_garbled, lemma_carried_bytes, lemma_garbled_chunks,
};
use crate::model::{FileMetadata, UserIdentity};
use crate::path::is_same_path;
use crate::protocol::{Params, Request, Step};
use crate::remote::prewarm::PrewarmAnswer;
use crate::remote::RemoteFileSystem;

verus! {

/// Whether two lookups gave the same bytes, or both nothing.
pub open spec fn same_bytes(a: Option<Vec<u8>>, b: Option<Vec<u8>>) -> bool {
    match (a, b) {
        (Some(x), Some(y)) => x@ == y@,
        (None, None) => true,
        _ => false,
    }
}

/// Whether two lookups gave the same text, or both nothing.
pub open spec fn same_string(a: Option<String>, b: Option<String>) -> bool {
    match (a, b) {
        (Some(x), Some(y)) => x@ == y@,
        (None, None) => true,
        _ => false,
    }
}

/// Everything that can be looked up for a path: contents, metadata, canonical path.
pub struct Lookup {
    pub content: Option<Vec<u8>>,
    pub meta: Option<FileMetadata>,
    pub canon: Option<String>,
}

impl Lookup {
    /// Whether this is what `fs` has for `path`.
    pub open spec fn is_in(self, fs: &RemoteFileSystem, path: &str) -> bool {
        &&& call_ensures(RemoteFileSystem::prewarm_content, (fs, path), self.content)
        &&& call_ensures(RemoteFileSystem::prewarm_meta, (fs, path), self.meta)
        &&& call_ensures(RemoteFileSystem::prewarm_canon, (fs, path), self.canon)
    }

    /// Whether nothing was found.
    pub open spec fn is_nothing(self) -> bool {
        self.content is None && self.meta is None && self.canon is None
    }

    /// Whether both found the same.
    pub open spec fn agrees_with(self, other: Lookup) -> bool {
        &&& same_bytes(self.content, other.content)
        &&& self.meta == other.meta
        &&& same_string(self.canon, other.canon)
    }
}

/// Whether `a` and `b` name one file.
pub open spec fn one_file(a: &str, b: &str) -> bool {
    call_ensures(is_same_path, (a, b), true)
}

/// Whether `a` and `b` name different files.
pub open spec fn two_files(a: &str, b: &str) -> bool {
    call_ensures(is_same_path, (a, b), false)
}

/// Kept contents are found under every spelling of their path, and nothing else
/// that is kept changes.
pub proof fn law_seeded_contents_are_found(
    fs: &mut RemoteFileSystem,
    path: &str,
    content: Vec<u8>,
    other: &str,
    before: Lookup,
    after: Lookup,
)
    requires
        call_ensures(RemoteFileSystem::seed_prewarm_content, (fs, path, content), ()),
        before.is_in(&*old(fs), other),
        after.is_in(&*final(fs), other),
    ensures
        one_file(other, path) ==> (after.content matches Some(c) && c@ == content@),
        two_files(other, path) ==> same_bytes(before.content, after.content),
        before.meta == after.meta,
        same_string(before.canon, after.canon),
{
}

/// A fresh file system has nothing prefetched.
pub proof fn law_new_cache_is_empty(
    channel: crate::remote::AgentChannel,
    name: String,
    fs: RemoteFileSystem,
    path: &str,
    found: Lookup,
    empty: bool,
)
    requires
        call_ensures(RemoteFileSystem::new, (channel, name), fs),
        found.is_in(&fs, path),
        call_ensures(RemoteFileSystem::prewarm_is_empty, (&fs,), empty),
    ensures
        found.is_nothing(),
        empty,
{
}

/// Clearing drops everything that was prefetched, and nothing else.
pub proof fn law_clearing_drops_everything(
    fs: &mut RemoteFileSystem,
    path: &str,
    found: Lookup,
    empty: bool,
)
    requires
        call_ensures(RemoteFileSystem::clear_prewarm, (fs,), ()),
        found.is_in(&*final(fs), path),
        call_ensures(RemoteFileSystem::prewarm_is_empty, (&*final(fs),), empty),
    ensures
        found.is_nothing(),
        empty,
        final(fs)@.channel == old(fs)@.channel,
        final(fs)@.connection == old(fs)@.connection,
        final(fs)@.sys_info == old(fs)@.sys_info,
{
}

/// A cache that says it is empty finds nothing; one that finds something does not
/// say so.
pub proof fn law_empty_cache_finds_nothing(
    fs: &RemoteFileSystem,
    path: &str,
    found: Lookup,
    empty: bool,
)
    requires
        found.is_in(fs, path),
        call_ensures(RemoteFileSystem::prewarm_is_empty, (fs,), empty),
    ensures
        empty ==> found.is_nothing(),
        empty <==> {
            &&& fs@.prewarm.content.dom() == Set::<Seq<char>>::empty()
            &&& fs@.prewarm.meta.dom() == Set::<Seq<char>>::empty()
            &&& fs@.prewarm.canon.dom() == Set::<Seq<char>>::empty()
        },
{
    let cache = fs@.prewarm;
    assert(cache.content.dom() == Set::<Seq<char>>::empty() ==> cache.content =~= Map::empty());
    assert(cache.meta.dom() == Set::<Seq<char>>::empty() ==> cache.meta =~= Map::empty());
    assert(cache.canon.dom() == Set::<Seq<char>>::empty() ==> cache.canon =~= Map::empty());
}

/// What is found does not depend on how a path is spelled.
pub proof fn law_spelling_of_a_path_does_not_matter(
    fs: &RemoteFileSystem,
    path: &str,
    other: &str,
    found: Lookup,
    other_found: Lookup,
)
    requires
        one_file(path, other),
        found.is_in(fs, path),
        other_found.is_in(fs, other),
    ensures
        found.agrees_with(other_found),
{
}

/// A prefetched file is found under the path that was asked for and under the
/// canonical path that the agent answered: the pieces that the agent sent, joined;
/// the metadata that the `stat` record converts to; and the canonical path.
pub proof fn law_prefetched_file_is_found(
    fs: &mut RemoteFileSystem,
    answer: PrewarmAnswer,
    user: Option<&UserIdentity>,
    pieces: Seq<Seq<u8>>,
    meta: FileMetadata,
    asked: &str,
    canon: &str,
    path: &str,
    before: Lookup,
    after: Lookup,
)
    requires
        call_ensures(RemoteFileSystem::prewarm_path, (fs, answer, user), ()),
        asked@ == answer.path@,
        before.is_in(&*old(fs), path),
        after.is_in(&*final(fs), path),
        one_file(path, asked) || ({
            &&& answer.realpath matches Ok(reply)
            &&& reply@.str_field("path"@) == Some(canon@)
            &&& one_file(path, canon)
        }),
    ensures
        answer.data matches Ok((chunks, _)) ==> carry_all(chunks@, pieces) ==> {
            &&& after.content matches Some(c)
            &&& c@ == pieces.flatten()
        },
        answer.data matches Ok((chunks, _)) ==> (exists|i: int|
            0 <= i < chunks.len() && is_garbled((#[trigger] chunks@[i])@)) ==> same_bytes(
            before.content,
            after.content,
        ),
        answer.data is Err ==> same_bytes(before.content, after.content),
        answer.stat matches Some(record) ==> call_ensures(
            RemoteFileSystem::convert_metadata_at,
            (&record, asked, user),
            meta,
        ) ==> after.meta == Some(meta),
        answer.stat is None ==> after.meta == before.meta,
        match answer.realpath {
            Ok(reply) => match reply@.str_field("path"@) {
                Some(c) => after.canon matches Some(found) && found@ == c,
                None => same_string(before.canon, after.canon),
            },
            Err(_) => same_string(before.canon, after.canon),
        },
{
    if let Ok((chunks, _)) = answer.data {
        if carry_all(chunks@, pieces) {
            lemma_carried_bytes(chunks@, pieces);
        }
        if exists|i: int| 0 <= i < chunks.len() && is_garbled((#[trigger] chunks@[i])@) {
            let i = choose|i: int| 0 <= i < chunks.len() && is_garbled((#[trigger] chunks@[i])@);
            lemma_garbled_chunks(chunks@, i);
        }
    }
}

/// Prefetching one file changes nothing that is kept of another, and nothing of the
/// connection.
pub proof fn law_prefetch_leaves_other_files_alone(
    fs: &mut RemoteFileSystem,
    answer: PrewarmAnswer,
    user: Option<&UserIdentity>,
    asked: &str,
    canon: &str,
    path: &str,
    before: Lookup,
    after: Lookup,
)
    requires
        call_ensures(RemoteFileSystem::prewarm_path, (fs, answer, user), ()),
        asked@ == answer.path@,
        before.is_in(&*old(fs), path),
        after.is_in(&*final(fs), path),
        two_files(path, asked),
        match answer.realpath {
            Ok(reply) => match reply@.str_field("path"@) {
                Some(c) => c == canon@ && two_files(path, canon),
                None => true,
            },
            Err(_) => true,
        },
    ensures
        before.agrees_with(after),
        final(fs)@.channel == old(fs)@.channel,
        final(fs)@.connection == old(fs)@.connection,
        final(fs)@.sys_info == old(fs)@.sys_info,
{
}

/// Prefetching several files is prefetching them one after another: nothing to do
/// for none, and for some more than some what the last one adds to the others.
pub proof fn law_prefetches_follow_each_other(
    fs: &mut RemoteFileSystem,
    front_fs: &mut RemoteFileSystem,
    last_fs: &mut RemoteFileSystem,
    answers: Vec<PrewarmAnswer>,
    front: Vec<PrewarmAnswer>,
    user: Option<&UserIdentity>,
)
    requires
        call_ensures(RemoteFileSystem::prewarm_paths, (fs, answers, user), ()),
    ensures
        answers@.len() == 0 ==> final(fs)@ == old(fs)@,
        ({
            &&& answers@.len() > 0
            &&& front@ == answers@.drop_last()
            &&& old(front_fs)@ == old(fs)@
            &&& call_ensures(RemoteFileSystem::prewarm_paths, (front_fs, front, user), ())
            &&& old(last_fs)@ == final(front_fs)@
            &&& call_ensures(RemoteFileSystem::prewarm_path, (last_fs, answers@.last(), user), ())
        }) ==> final(fs)@ == final(last_fs)@,
{
}

/// Whether `q` asks for the canonical form of `path`.
pub open spec fn asks_for_canonical(q: Request, path: Seq<char>) -> bool {
    has_fields(q, "realpath"@, seq![("path"@, JsonView::Str(path))])
}

/// Whether `q` asks for the metadata of `path`.
pub open spec fn asks_for_metadata(q: Request, path: Seq<char>, follow: bool) -> bool {
    &&& q.method@ == "stat"@
    &&& q.params matches Params::Stat { path: p, follow: f }
    &&& p@ == path
    &&& f == follow
}

/// A prefetch asks for the canonical form, the metadata behind links, and the whole
/// contents of the path.
pub proof fn law_prefetch_asks_for_everything(path: &str, asked: (Request, Request, Request))
    requires
        call_ensures(RemoteFileSystem::prewarm_requests, (path,), asked),
    ensures
        asks_for_canonical(asked.0, path@),
        asks_for_metadata(asked.1, path@, true),
        asks_for_contents(asked.2, path@, None, None),
{
    lemma_fields(asked.0);
}

/// Metadata is taken from what was prefetched, and asked for exactly where nothing
/// was. Links are followed.
pub proof fn law_metadata_is_taken_from_the_cache_first(
    fs: &RemoteFileSystem,
    path: &str,
    cached: Option<FileMetadata>,
    step: Step<FileMetadata>,
)
    requires
        call_ensures(RemoteFileSystem::prewarm_meta, (fs, path), cached),
        call_ensures(RemoteFileSystem::metadata, (fs, path), step),
    ensures
        match cached {
            Some(meta) => step matches Step::Ready(m) && m == meta,
            None => step matches Step::Ask(q) && asks_for_metadata(q, path@, true),
        },
{
}

/// A canonical path is taken from what was prefetched, and asked for exactly where
/// nothing was.
pub proof fn law_canonical_path_is_taken_from_the_cache_first(
    fs: &RemoteFileSystem,
    path: &str,
    cached: Option<String>,
    step: Step<String>,
)
    requires
        call_ensures(RemoteFileSystem::prewarm_canon, (fs, path), cached),
        call_ensures(RemoteFileSystem::canonicalize, (fs, path), step),
    ensures
        match cached {
            Some(canon) => step matches Step::Ready(c) && c@ == canon@,
            None => step matches Step::Ask(q) && asks_for_canonical(q, path@),
        },
{
    if let Step::Ask(q) = step {
        lemma_fields(q);
    }
}

} // verus!
