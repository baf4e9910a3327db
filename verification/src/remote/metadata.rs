//! The agent's `stat` and `ls` records, turned into the editor's own.
use vstd::prelude::*;

use crate::error::{io_error_of, ChannelError, FaultKind, FsError, FsErrorView};
use crate::model::{DirEntry, EntryType, FileMetadata, FilePermissions, UserIdentity};
use crate::path::{file_name, file_name_of};
use crate::protocol::{
    Params, ParamsView, RemoteDirEntry, RemoteMetadata, Request, RequestView, Step,
};
use crate::remote::RemoteFileSystem;
use crate::text::chars_of;

verus! {

/// Whether a file of this name is hidden.
pub open spec fn is_hidden_name(name: Seq<char>) -> bool {
    name.len() > 0 && name[0] == '.'
}

/// A modification time: the agent reports none as zero or less.
pub open spec fn modified_at(mtime: i64) -> Option<u64> {
    if mtime > 0 {
        Some(mtime as u64)
    } else {
        None
    }
}

/// The effective user id and the groups of `user`.
pub open spec fn identity_of(user: Option<&UserIdentity>) -> Option<(u32, Seq<u32>)> {
    match user {
        Some(u) => Some((u.euid, u.groups@)),
        None => None,
    }
}

/// The metadata of a file called `name`, as `user` sees it. On a host that knows
/// no user ids there is no user: a file then counts as read-only only where
/// nobody may write, and has no owner.
pub open spec fn metadata_of(
    record: RemoteMetadata,
    name: Seq<char>,
    user: Option<(u32, Seq<u32>)>,
) -> FileMetadata {
    let permissions = FilePermissions { mode: record.mode };
    FileMetadata {
        size: record.size,
        modified: modified_at(record.mtime),
        permissions: Some(permissions),
        is_hidden: is_hidden_name(name),
        is_readonly: match user {
            Some((euid, groups)) => permissions.denies_write_to(
                euid,
                record.uid,
                record.gid,
                groups,
            ),
            None => permissions.no_write_bit(),
        },
        uid: if user is Some {
            Some(record.uid)
        } else {
            None
        },
        gid: if user is Some {
            Some(record.gid)
        } else {
            None
        },
    }
}

/// The name by which the metadata of `path` is judged.
pub open spec fn name_or_empty(path: Seq<char>) -> Seq<char> {
    match file_name(path) {
        Some(name) => name,
        None => Seq::empty(),
    }
}

/// The kind of a listed entry: a link is a link whatever it leads to.
pub open spec fn entry_type_of(record: RemoteDirEntry) -> EntryType {
    if record.link {
        EntryType::Symlink
    } else if record.dir {
        EntryType::Directory
    } else {
        EntryType::File
    }
}

/// The metadata of a listed entry. A listing names no owner, so an entry counts
/// as read-only only where nobody may write.
pub open spec fn listed_metadata(record: RemoteDirEntry) -> FileMetadata {
    let permissions = FilePermissions { mode: record.mode };
    FileMetadata {
        size: record.size,
        modified: modified_at(record.mtime),
        permissions: Some(permissions),
        is_hidden: is_hidden_name(record.name@),
        is_readonly: permissions.no_write_bit(),
        uid: None,
        gid: None,
    }
}

/// Whether `entry` is what the agent's record lists.
pub open spec fn is_entry_of(entry: DirEntry, record: RemoteDirEntry) -> bool {
    &&& entry.path@ == record.path@
    &&& entry.name@ == record.name@
    &&& entry.entry_type == entry_type_of(record)
    &&& entry.metadata == Some(listed_metadata(record))
    &&& entry.symlink_target_is_dir == record.link_dir
}

/// The question for the metadata of `path`, of the file behind a link where
/// `follow` is set.
pub open spec fn stat_request(path: Seq<char>, follow: bool) -> RequestView {
    RequestView { method: "stat"@, params: ParamsView::Stat { path, follow } }
}

/// What a `stat` answer means for `path`. An answer that is no `stat` record is
/// invalid data.
pub open spec fn replied_metadata(
    path: Seq<char>,
    reply: Result<Result<RemoteMetadata, String>, ChannelError>,
    user: Option<(u32, Seq<u32>)>,
) -> Result<FileMetadata, FsErrorView> {
    match reply {
        Ok(Ok(record)) => Ok(metadata_of(record, name_or_empty(path), user)),
        Ok(Err(why)) => Err(FsErrorView::Fault { kind: FaultKind::InvalidData, message: why@ }),
        Err(e) => Err(io_error_of(e@)),
    }
}

fn hidden(name: &str) -> (b: bool)
    ensures
        b == is_hidden_name(name@),
{
    let chars = chars_of(name);
    chars.len() > 0 && chars[0] == '.'
}

fn modified(mtime: i64) -> (at: Option<u64>)
    ensures
        at == modified_at(mtime),
{
    if mtime > 0 {
        Some(mtime as u64)
    } else {
        None
    }
}

/// Asks for the metadata of `path`.
pub(crate) fn ask_stat(path: &str, follow: bool) -> (question: Request)
    ensures
        question@ == stat_request(path@, follow),
{
    Request { method: "stat", params: Params::Stat { path: path.to_owned(), follow } }
}

impl RemoteFileSystem {
    /// The metadata that a `stat` record gives of a file called `name`, as `user`
    /// sees it.
    pub fn convert_metadata(
        record: &RemoteMetadata,
        name: &str,
        user: Option<&UserIdentity>,
    ) -> (meta: FileMetadata)
        ensures
            meta == metadata_of(*record, name@, identity_of(user)),
    {
        let permissions = FilePermissions::from_mode(record.mode);
        FileMetadata {
            size: record.size,
            modified: modified(record.mtime),
            permissions: Some(permissions),
            is_hidden: hidden(name),
            is_readonly: match user {
                Some(u) => permissions.is_readonly_for_user(u, record.uid, record.gid),
                None => permissions.is_readonly(),
            },
            uid: match user {
                Some(_) => Some(record.uid),
                None => None,
            },
            gid: match user {
                Some(_) => Some(record.gid),
                None => None,
            },
        }
    }

    /// The metadata that a `stat` record gives of the file at `path`.
    pub fn convert_metadata_at(
        record: &RemoteMetadata,
        path: &str,
        user: Option<&UserIdentity>,
    ) -> (meta: FileMetadata)
        ensures
            meta == metadata_of(*record, name_or_empty(path@), identity_of(user)),
    {
        let name = match file_name_of(path) {
            Some(name) => name,
            None => String::new(),
        };
        Self::convert_metadata(record, name.as_str(), user)
    }

    /// The directory entry that a listing's record describes.
    pub fn convert_dir_entry(record: &RemoteDirEntry) -> (entry: DirEntry)
        ensures
            is_entry_of(entry, *record),
    {
        let entry_type = if record.link {
            EntryType::Symlink
        } else if record.dir {
            EntryType::Directory
        } else {
            EntryType::File
        };
        let permissions = FilePermissions::from_mode(record.mode);
        let metadata = FileMetadata {
            size: record.size,
            modified: modified(record.mtime),
            permissions: Some(permissions),
            is_hidden: hidden(record.name.as_str()),
            is_readonly: permissions.is_readonly(),
            uid: None,
            gid: None,
        };
        DirEntry {
            path: record.path.clone(),
            name: record.name.clone(),
            entry_type,
            metadata: Some(metadata),
            symlink_target_is_dir: record.link_dir,
        }
    }

    /// The metadata of `path`: prefetched, or to be asked for.
    pub fn metadata(&self, path: &str) -> (step: Step<FileMetadata>)
        ensures
            match self@.prewarm.meta_of(path@) {
                Some(meta) => step == Step::<FileMetadata>::Ready(meta),
                None => step matches Step::Ask(q) && q@ == stat_request(path@, true),
            },
    {
        match self.prewarm_meta(path) {
            Some(meta) => Step::Ready(meta),
            None => Step::Ask(ask_stat(path, true)),
        }
    }

    /// Asks for the metadata of `path` itself, not of what a link leads to.
    pub fn symlink_metadata(&self, path: &str) -> (question: Request)
        ensures
            question@ == stat_request(path@, false),
    {
        ask_stat(path, false)
    }

    /// The metadata of `path`, from the answer to either question. The answer
    /// comes as a `stat` record, or as the reason why it is none.
    pub fn metadata_reply(
        path: &str,
        reply: Result<Result<RemoteMetadata, String>, ChannelError>,
        user: Option<&UserIdentity>,
    ) -> (meta: Result<FileMetadata, FsError>)
        ensures
            match meta {
                Ok(m) => replied_metadata(path@, reply, identity_of(user)) == Ok::<
                    FileMetadata,
                    FsErrorView,
                >(m),
                Err(e) => replied_metadata(path@, reply, identity_of(user)) == Err::<
                    FileMetadata,
                    FsErrorView,
                >(e@),
            },
    {
        match reply {
            Ok(Ok(record)) => Ok(Self::convert_metadata_at(&record, path, user)),
            Ok(Err(why)) => Err(FsError::Fault { kind: FaultKind::InvalidData, message: why }),
            Err(e) => Err(Self::to_io_error(e)),
        }
    }

    /// Asks for the entries of the directory `path`.
    pub fn read_dir(&self, path: &str) -> (question: Request)
        ensures
            question@ == (RequestView { method: "ls"@, params: ParamsView::List { path: path@ } }),
    {
        Request { method: "ls", params: Params::List { path: path.to_owned() } }
    }

    /// The entries of a directory, in the agent's order. An answer without a
    /// readable list of entries lists none.
    pub fn read_dir_reply(reply: Result<Option<Vec<RemoteDirEntry>>, ChannelError>) -> (entries:
        Result<Vec<DirEntry>, FsError>)
        ensures
            match reply {
                Ok(Some(records)) => {
                    &&& entries matches Ok(list)
                    &&& list.len() == records.len()
                    &&& forall|i: int|
                        0 <= i < records.len() ==> #[trigger] is_entry_of(list[i], records[i])
                },
                Ok(None) => entries matches Ok(list) && list.len() == 0,
                Err(e) => entries matches Err(x) && x@ == io_error_of(e@),
            },
    {
        match reply {
            Ok(Some(records)) => {
                let mut list: Vec<DirEntry> = Vec::new();
                let mut i: usize = 0;
                while i < records.len()
                    invariant
                        i <= records.len(),
                        list.len() == i,
                        forall|k: int|
                            0 <= k < i ==> #[trigger] is_entry_of(list[k], records[k]),
                    decreases records.len() - i,
                {
                    list.push(Self::convert_dir_entry(&records[i]));
                    i += 1;
                }
                Ok(list)
            },
            Ok(None) => Ok(Vec::new()),
            Err(e) => Err(Self::to_io_error(e)),
        }
    }
}

} // verus!
