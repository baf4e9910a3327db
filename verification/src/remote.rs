//! The remote file system: the state that is kept per connection, and the
//! operations that read or change it.
//!
//! The link to the agent is not touched here. An operation either has its result
//! at hand or names the [`Request`] to send; what the agent answers is then
//! handed to the operation's `_reply` function.
use vstd::hash_map::StringHashMap;
use vstd::prelude::*;

use crate::model::FileMetadata;
use crate::path::{normal_form, normalize};
use crate::protocol::text_of;

pub mod handles;
pub mod info;
pub mod metadata;
pub mod ops;
pub mod prewarm;
pub mod read;
pub mod search;
pub mod walk;

verus! {

/// What is known of the channel to the agent.
#[derive(Clone, Copy, Debug, PartialEq, Eq)]
pub struct AgentChannel {
    pub id: u64,
    pub connected: bool,
}

/// What the agent reports once per connection: the home directory, where it
/// knows one, and the directory for temporary files.
#[derive(Debug, PartialEq, Eq)]
pub struct RemoteSysInfo {
    pub home: Option<String>,
    pub temp_dir: String,
}

/// The mathematical value of a [`RemoteSysInfo`].
pub struct SysInfoView {
    pub home: Option<Seq<char>>,
    pub temp_dir: Seq<char>,
}

impl RemoteSysInfo {
    pub open spec fn view(&self) -> SysInfoView {
        SysInfoView { home: text_of(self.home), temp_dir: self.temp_dir@ }
    }
}

/// Files fetched ahead of their first use, found by the normal form of their
/// path.
pub struct PrewarmCache {
    content: StringHashMap<Vec<u8>>,
    meta: StringHashMap<FileMetadata>,
    canon: StringHashMap<String>,
}

/// The mathematical value of a [`PrewarmCache`].
#[verifier::ext_equal]
pub struct PrewarmView {
    pub content: Map<Seq<char>, Seq<u8>>,
    pub meta: Map<Seq<char>, FileMetadata>,
    pub canon: Map<Seq<char>, Seq<char>>,
}

impl PrewarmCache {
    pub closed spec fn view(&self) -> PrewarmView {
        PrewarmView {
            content: self.content@.map_values(|v: Vec<u8>| v@),
            meta: self.meta@,
            canon: self.canon@.map_values(|s: String| s@),
        }
    }

    fn new() -> (cache: PrewarmCache)
        ensures
            cache@ == PrewarmView::empty(),
    {
        let cache = PrewarmCache {
            content: StringHashMap::new(),
            meta: StringHashMap::new(),
            canon: StringHashMap::new(),
        };
        assert(cache@ =~= PrewarmView::empty());
        cache
    }

    fn content_at(&self, path: &str) -> (bytes: Option<Vec<u8>>)
        ensures
            match bytes {
                Some(b) => self@.content_of(path@) == Some(b@),
                None => self@.content_of(path@) is None,
            },
    {
        match self.content.get(normalize(path).as_str()) {
            Some(bytes) => {
                let copy = bytes.clone();
                assert(copy@ == bytes@);
                Some(copy)
            },
            None => None,
        }
    }

    fn meta_at(&self, path: &str) -> (meta: Option<FileMetadata>)
        ensures
            meta == self@.meta_of(path@),
    {
        match self.meta.get(normalize(path).as_str()) {
            Some(meta) => Some(*meta),
            None => None,
        }
    }

    fn canon_at(&self, path: &str) -> (canon: Option<String>)
        ensures
            match canon {
                Some(c) => self@.canon_of(path@) == Some(c@),
                None => self@.canon_of(path@) is None,
            },
    {
        match self.canon.get(normalize(path).as_str()) {
            Some(canon) => Some(canon.clone()),
            None => None,
        }
    }

    fn is_empty(&self) -> (empty: bool)
        ensures
            empty == (self@ =~= PrewarmView::empty()),
    {
        proof {
            let none = PrewarmView::empty();
            assert(self@.content.dom() =~= self.content@.dom());
            assert(self@.canon.dom() =~= self.canon@.dom());
            assert(self.content@.is_empty() <==> self@.content =~= none.content);
            assert(self.meta@.is_empty() <==> self@.meta =~= none.meta);
            assert(self.canon@.is_empty() <==> self@.canon =~= none.canon);
        }
        self.content.is_empty() && self.meta.is_empty() && self.canon.is_empty()
    }

    fn put_content(&mut self, path: &str, bytes: Vec<u8>)
        ensures
            final(self)@ == old(self)@.with_content(path@, bytes@),
    {
        self.content.insert(normalize(path), bytes);
        assert(self@ =~= old(self)@.with_content(path@, bytes@));
    }

    fn put_meta(&mut self, path: &str, meta: FileMetadata)
        ensures
            final(self)@ == old(self)@.with_meta(path@, meta),
    {
        self.meta.insert(normalize(path), meta);
        assert(self@ =~= old(self)@.with_meta(path@, meta));
    }

    fn put_canon(&mut self, path: &str, canon: String)
        ensures
            final(self)@ == old(self)@.with_canon(path@, canon@),
    {
        self.canon.insert(normalize(path), canon);
        assert(self@ =~= old(self)@.with_canon(path@, canon@));
    }
}

impl PrewarmView {
    pub open spec fn empty() -> PrewarmView {
        PrewarmView { content: Map::empty(), meta: Map::empty(), canon: Map::empty() }
    }

    pub open spec fn with_content(self, path: Seq<char>, bytes: Seq<u8>) -> PrewarmView {
        PrewarmView { content: self.content.insert(normal_form(path), bytes), ..self }
    }

    pub open spec fn with_meta(self, path: Seq<char>, meta: FileMetadata) -> PrewarmView {
        PrewarmView { meta: self.meta.insert(normal_form(path), meta), ..self }
    }

    pub open spec fn with_canon(self, path: Seq<char>, canon: Seq<char>) -> PrewarmView {
        PrewarmView { canon: self.canon.insert(normal_form(path), canon), ..self }
    }

    /// The bytes kept for `path`.
    pub open spec fn content_of(self, path: Seq<char>) -> Option<Seq<u8>> {
        if self.content.contains_key(normal_form(path)) {
            Some(self.content[normal_form(path)])
        } else {
            None
        }
    }

    /// The metadata kept for `path`.
    pub open spec fn meta_of(self, path: Seq<char>) -> Option<FileMetadata> {
        if self.meta.contains_key(normal_form(path)) {
            Some(self.meta[normal_form(path)])
        } else {
            None
        }
    }

    /// The canonical path kept for `path`.
    pub open spec fn canon_of(self, path: Seq<char>) -> Option<Seq<char>> {
        if self.canon.contains_key(normal_form(path)) {
            Some(self.canon[normal_form(path)])
        } else {
            None
        }
    }
}

/// A remote file system over one agent channel.
pub struct RemoteFileSystem {
    channel: AgentChannel,
    /// Names the connection to the user.
    connection_string: String,
    /// Set at most once per connection.
    sys_info: Option<RemoteSysInfo>,
    /// Empty except between a connect's prefetch and the restore that uses it.
    prewarm: PrewarmCache,
}

/// The mathematical value of a [`RemoteFileSystem`].
#[verifier::ext_equal]
pub struct RemoteView {
    pub channel: AgentChannel,
    pub connection: Seq<char>,
    pub sys_info: Option<SysInfoView>,
    pub prewarm: PrewarmView,
}

/// The value of optional system information.
pub open spec fn info_view(info: Option<RemoteSysInfo>) -> Option<SysInfoView> {
    match info {
        Some(i) => Some(i@),
        None => None,
    }
}

impl RemoteFileSystem {
    pub closed spec fn view(&self) -> RemoteView {
        RemoteView {
            channel: self.channel,
            connection: self.connection_string@,
            sys_info: info_view(self.sys_info),
            prewarm: self.prewarm@,
        }
    }

    /// A file system over `channel`, with nothing cached.
    pub fn new(channel: AgentChannel, connection_string: String) -> (fs: RemoteFileSystem)
        ensures
            fs@ == (RemoteView {
                channel,
                connection: connection_string@,
                sys_info: None,
                prewarm: PrewarmView::empty(),
            }),
    {
        RemoteFileSystem {
            channel,
            connection_string,
            sys_info: None,
            prewarm: PrewarmCache::new(),
        }
    }

    /// The name of the connection.
    pub fn connection_string(&self) -> (name: &str)
        ensures
            name@ == self@.connection,
    {
        self.connection_string.as_str()
    }

    /// Whether the channel is up.
    pub fn is_connected(&self) -> (up: bool)
        ensures
            up == self@.channel.connected,
    {
        self.channel.connected
    }

    /// Takes note that the channel went up or down.
    pub fn set_connected(&mut self, connected: bool)
        ensures
            final(self)@ == (RemoteView {
                channel: AgentChannel { connected, ..old(self)@.channel },
                ..old(self)@
            }),
    {
        self.channel.connected = connected;
    }

    /// The name of the connection: a remote file system always has one.
    pub fn remote_connection_info(&self) -> (name: Option<&str>)
        ensures
            name matches Some(s) && s@ == self@.connection,
    {
        Some(self.connection_string.as_str())
    }

    /// Whether the channel is up.
    pub fn is_remote_connected(&self) -> (up: bool)
        ensures
            up == self@.channel.connected,
    {
        self.channel.connected
    }

    /// The number of the channel: a remote file system always has one.
    pub fn remote_channel_id(&self) -> (id: Option<u64>)
        ensures
            id == Some(self@.channel.id),
    {
        Some(self.channel.id)
    }

    /// The remote user's id is not known; ownership checks do not apply.
    pub fn current_uid(&self) -> (uid: u32)
        ensures
            uid == 0,
    {
        0
    }
}

} // verus!
