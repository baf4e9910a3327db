//! Files fetched ahead of their first use, so that restoring a session does not
//! wait for the link.
use vstd::prelude::*;

use crate::error::ChannelError;
use crate::json::{array_view, Json};
use crate::model::{FileMetadata, UserIdentity};
use crate::protocol::{RemoteMetadata, Request};
use crate::remote::metadata::{ask_stat, identity_of, metadata_of, name_or_empty, stat_request};
use crate::path::same_path;
use crate::remote::read::{
    ask_canonical, ask_read, collected_bytes, read_request, realpath_request, replied_contents,
};
use crate::remote::{PrewarmCache, PrewarmView, RemoteFileSystem, RemoteView};

verus! {

/// What the agent answered about one path to be prefetched: its canonical form,
/// its `stat` record where one came, and its contents in chunks.
pub struct PrewarmAnswer {
    pub path: String,
    pub realpath: Result<Json, ChannelError>,
    pub stat: Option<RemoteMetadata>,
    pub data: Result<(Vec<Json>, Json), ChannelError>,
}

/// The whole contents that the answers give. There are none where the read failed,
/// nor where any part of it cannot be decoded.
pub open spec fn answered_bytes(a: PrewarmAnswer) -> Option<Seq<u8>> {
    match a.data {
        Ok((chunks, _)) => collected_bytes(array_view(chunks@)),
        Err(_) => None,
    }
}

/// The canonical form of the path, where the agent gave one.
pub open spec fn canonical_in(a: PrewarmAnswer) -> Option<Seq<char>> {
    match a.realpath {
        Ok(answer) => answer@.str_field("path"@),
        Err(_) => None,
    }
}

impl PrewarmView {
    /// `canon` kept as the canonical form of `path` and of itself.
    pub open spec fn with_canon_at(self, path: Seq<char>, canon: Seq<char>) -> PrewarmView {
        self.with_canon(path, canon).with_canon(canon, canon)
    }

    /// `bytes` kept under `path`, and under its canonical form where there is
    /// one.
    pub open spec fn with_content_at(
        self,
        path: Seq<char>,
        canon: Option<Seq<char>>,
        bytes: Seq<u8>,
    ) -> PrewarmView {
        match canon {
            Some(c) => self.with_content(path, bytes).with_content(c, bytes),
            None => self.with_content(path, bytes),
        }
    }

    /// `meta` kept under `path`, and under its canonical form where there is one.
    pub open spec fn with_meta_at(
        self,
        path: Seq<char>,
        canon: Option<Seq<char>>,
        meta: FileMetadata,
    ) -> PrewarmView {
        match canon {
            Some(c) => self.with_meta(path, meta).with_meta(c, meta),
            None => self.with_meta(path, meta),
        }
    }

    /// The cache after the answers about one path. What the agent did not answer
    /// is left as it was.
    pub open spec fn prewarmed(
        self,
        a: PrewarmAnswer,
        user: Option<(u32, Seq<u32>)>,
    ) -> PrewarmView {
        let canon = canonical_in(a);
        let s1 = match canon {
            Some(c) => self.with_canon_at(a.path@, c),
            None => self,
        };
        let s2 = match a.stat {
            Some(record) => s1.with_meta_at(
                a.path@,
                canon,
                metadata_of(record, name_or_empty(a.path@), user),
            ),
            None => s1,
        };
        match answered_bytes(a) {
            Some(bytes) => s2.with_content_at(a.path@, canon, bytes),
            None => s2,
        }
    }

    /// The cache after the answers about several paths, taken in order.
    pub open spec fn prewarmed_all(
        self,
        answers: Seq<PrewarmAnswer>,
        user: Option<(u32, Seq<u32>)>,
    ) -> PrewarmView
        decreases answers.len(),
    {
        if answers.len() == 0 {
            self
        } else {
            self.prewarmed_all(answers.drop_last(), user).prewarmed(answers.last(), user)
        }
    }
}

impl RemoteFileSystem {
    /// The bytes prefetched for `path`.
    pub fn prewarm_content(&self, path: &str) -> (bytes: Option<Vec<u8>>)
        ensures
            match bytes {
                Some(b) => self@.prewarm.content_of(path@) == Some(b@),
                None => self@.prewarm.content_of(path@) is None,
            },
    {
        self.prewarm.content_at(path)
    }

    /// The metadata prefetched for `path`.
    pub fn prewarm_meta(&self, path: &str) -> (meta: Option<FileMetadata>)
        ensures
            meta == self@.prewarm.meta_of(path@),
    {
        self.prewarm.meta_at(path)
    }

    /// The canonical path prefetched for `path`.
    pub fn prewarm_canon(&self, path: &str) -> (canon: Option<String>)
        ensures
            match canon {
                Some(c) => self@.prewarm.canon_of(path@) == Some(c@),
                None => self@.prewarm.canon_of(path@) is None,
            },
    {
        self.prewarm.canon_at(path)
    }

    /// The three questions that prefetch `path`: its canonical form, its
    /// metadata and its contents.
    pub fn prewarm_requests(path: &str) -> (questions: (Request, Request, Request))
        ensures
            questions.0@ == realpath_request(path@),
            questions.1@ == stat_request(path@, true),
            questions.2@ == read_request(path@, None, None),
    {
        (ask_canonical(path), ask_stat(path, true), ask_read(path, None, None))
    }

    /// Takes in the answers about one path.
    pub fn prewarm_path(&mut self, answer: PrewarmAnswer, user: Option<&UserIdentity>)
        ensures
            final(self)@ == (RemoteView {
                prewarm: old(self)@.prewarm.prewarmed(answer, identity_of(user)),
                ..old(self)@
            }),
    {
        let path = answer.path;
        let canon: Option<String> = match &answer.realpath {
            Ok(reply) => match reply.str_field("path") {
                Some(c) => Some(c.to_owned()),
                None => None,
            },
            Err(_) => None,
        };
        if let Some(c) = &canon {
            self.prewarm.put_canon(path.as_str(), c.clone());
            self.prewarm.put_canon(c.as_str(), c.clone());
        }
        if let Some(record) = &answer.stat {
            let meta = Self::convert_metadata_at(record, path.as_str(), user);
            self.prewarm.put_meta(path.as_str(), meta);
            if let Some(c) = &canon {
                self.prewarm.put_meta(c.as_str(), meta);
            }
        }
        if let Ok(bytes) = Self::read_file_reply(answer.data) {
            if let Some(c) = &canon {
                let copy = bytes.clone();
                assert(copy@ == bytes@);
                self.prewarm.put_content(path.as_str(), copy);
                self.prewarm.put_content(c.as_str(), bytes);
            } else {
                self.prewarm.put_content(path.as_str(), bytes);
            }
        }
    }

    /// Takes in the answers about several paths, in order.
    pub fn prewarm_paths(&mut self, answers: Vec<PrewarmAnswer>, user: Option<&UserIdentity>)
        ensures
            final(self)@ == (RemoteView {
                prewarm: old(self)@.prewarm.prewarmed_all(answers@, identity_of(user)),
                ..old(self)@
            }),
    {
        let ghost start = self@;
        for answer in it: answers
            invariant
                it.seq() == answers@,
                self@ == (RemoteView {
                    prewarm: start.prewarm.prewarmed_all(
                        answers@.take(it.index()),
                        identity_of(user),
                    ),
                    ..start
                }),
        {
            let ghost next = answers@.take(it.index() + 1);
            assert(next.drop_last() == answers@.take(it.index()));
            assert(next.last() == answer);
            self.prewarm_path(answer, user);
        }
        assert(answers@.take(answers@.len() as int) == answers@);
    }

    /// Keeps `content` as the prefetched bytes of `path`.
    pub fn seed_prewarm_content(&mut self, path: &str, content: Vec<u8>)
        ensures
            final(self)@ == (RemoteView {
                prewarm: old(self)@.prewarm.with_content(path@, content@),
                ..old(self)@
            }),
    {
        self.prewarm.put_content(path, content);
    }

    /// Drops everything that was prefetched.
    pub fn clear_prewarm(&mut self)
        ensures
            final(self)@ == (RemoteView { prewarm: PrewarmView::empty(), ..old(self)@ }),
    {
        self.prewarm = PrewarmCache::new();
    }

    /// Whether nothing is prefetched.
    pub fn prewarm_is_empty(&self) -> (empty: bool)
        ensures
            empty == (self@.prewarm =~= PrewarmView::empty()),
    {
        self.prewarm.is_empty()
    }
}

/// Whether the answers are kept under `path`: it is the path asked for, or its
/// canonical form.
pub open spec fn is_kept_under(a: PrewarmAnswer, path: Seq<char>) -> bool {
    same_path(path, a.path@) || (canonical_in(a) matches Some(c) && same_path(path, c))
}

/// A prefetched file is served from the cache, under the path that was asked for
/// and under its canonical form, however either is spelled: contents, metadata
/// and canonical path, as far as the agent answered them.
pub proof fn law_prewarmed_file_is_served(
    cache: PrewarmView,
    a: PrewarmAnswer,
    user: Option<(u32, Seq<u32>)>,
    path: Seq<char>,
)
    requires
        is_kept_under(a, path),
    ensures
        answered_bytes(a) matches Some(bytes) ==> cache.prewarmed(a, user).content_of(path)
            == Some(bytes),
        a.stat matches Some(record) ==> cache.prewarmed(a, user).meta_of(path) == Some(
            metadata_of(record, name_or_empty(a.path@), user),
        ),
        canonical_in(a) is Some ==> cache.prewarmed(a, user).canon_of(path) == canonical_in(a),
{
}

/// Prefetching one file leaves what is kept of every other file alone.
pub proof fn law_prewarm_leaves_others(
    cache: PrewarmView,
    a: PrewarmAnswer,
    user: Option<(u32, Seq<u32>)>,
    path: Seq<char>,
)
    requires
        !is_kept_under(a, path),
    ensures
        cache.prewarmed(a, user).content_of(path) == cache.content_of(path),
        cache.prewarmed(a, user).meta_of(path) == cache.meta_of(path),
        cache.prewarmed(a, user).canon_of(path) == cache.canon_of(path),
{
}

/// What the agent could not answer, or answered in part only, is left as it was: a
/// later read goes over the link and meets the real error.
pub proof fn law_unanswered_stays_uncached(
    cache: PrewarmView,
    a: PrewarmAnswer,
    user: Option<(u32, Seq<u32>)>,
)
    ensures
        answered_bytes(a) is None ==> cache.prewarmed(a, user).content == cache.content,
        a.stat is None ==> cache.prewarmed(a, user).meta == cache.meta,
        canonical_in(a) is None ==> cache.prewarmed(a, user).canon == cache.canon,
{
}

/// Of several prefetched files each is served, as far as the agent answered for it,
/// unless a later one is kept under the same path.
pub proof fn law_all_prewarmed_files_are_served(
    cache: PrewarmView,
    answers: Seq<PrewarmAnswer>,
    user: Option<(u32, Seq<u32>)>,
    i: int,
    path: Seq<char>,
)
    requires
        0 <= i < answers.len(),
        is_kept_under(answers[i], path),
        forall|k: int| i < k < answers.len() ==> !is_kept_under(#[trigger] answers[k], path),
    ensures
        ({
            let after = cache.prewarmed_all(answers, user);
            let a = answers[i];
            &&& answered_bytes(a) is Some ==> after.content_of(path) == answered_bytes(a)
            &&& a.stat matches Some(record) ==> after.meta_of(path) == Some(
                metadata_of(record, name_or_empty(a.path@), user),
            )
            &&& canonical_in(a) is Some ==> after.canon_of(path) == canonical_in(a)
        }),
    decreases answers.len(),
{
    let front = answers.drop_last();
    let before = cache.prewarmed_all(front, user);
    if i == answers.len() - 1 {
        law_prewarmed_file_is_served(before, answers.last(), user, path);
    } else {
        assert forall|k: int| i < k < front.len() implies !is_kept_under(
            #[trigger] front[k],
            path,
        ) by {
            assert(front[k] == answers[k]);
        }
        law_all_prewarmed_files_are_served(cache, front, user, i, path);
        assert(!is_kept_under(answers[answers.len() - 1], path));
        law_prewarm_leaves_others(before, answers.last(), user, path);
    }
}

/// What is prefetched is what a read over the link gives: exactly where that read
/// succeeds on the same answer there is something to keep, and it is the same.
pub proof fn law_prewarm_agrees_with_live_read(a: PrewarmAnswer)
    ensures
        match replied_contents(a.data) {
            Ok(bytes) => answered_bytes(a) == Some(bytes),
            Err(_) => answered_bytes(a) is None,
        },
{
}

/// A cleared cache serves nothing: every read goes over the link again.
pub proof fn law_cleared_cache_serves_nothing(path: Seq<char>)
    ensures
        PrewarmView::empty().content_of(path) is None,
        PrewarmView::empty().meta_of(path) is None,
        PrewarmView::empty().canon_of(path) is None,
{
}

} // verus!
