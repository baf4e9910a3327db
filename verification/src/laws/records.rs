//! The agent's records and what the editor makes of them.
use vstd::prelude::*;

use crate::error::FsError;
use crate::model::{DirEntry, EntryType, FileMetadata, FilePermissions, UserIdentity};
use crate::path::file_name_of;
use crate::protocol::{RemoteDirEntry, RemoteMetadata};
use crate::remote::RemoteFileSystem;

verus! {

/// Whether the bit worth `value` is set in `mode`.
pub open spec fn has_bit(mode: u32, value: int) -> bool {
    (mode as int) / value % 2 == 1
}

proof fn lemma_write_bits(mode: u32)
    ensures
        (mode & 0o200 == 0) == !has_bit(mode, 128),
        (mode & 0o020 == 0) == !has_bit(mode, 16),
        (mode & 0o002 == 0) == !has_bit(mode, 2),
        (mode & 0o222 == 0) == (!has_bit(mode, 128) && !has_bit(mode, 16) && !has_bit(mode, 2)),
{
    assert((mode & 0o200 == 0) == ((mode / 128) % 2 == 0)) by (bit_vector);
    assert((mode & 0o020 == 0) == ((mode / 16) % 2 == 0)) by (bit_vector);
    assert((mode & 0o002 == 0) == ((mode / 2) % 2 == 0)) by (bit_vector);
    assert((mode & 0o222 == 0) == ((mode / 128) % 2 == 0 && (mode / 16) % 2 == 0 && (mode / 2) % 2
        == 0)) by (bit_vector);
}

/// Whether the name is that of a hidden file.
pub open spec fn starts_with_dot(name: Seq<char>) -> bool {
    exists|rest: Seq<char>| name == seq!['.'] + rest
}

proof fn lemma_hidden(name: Seq<char>)
    ensures
        starts_with_dot(name) == (name.len() > 0 && name[0] == '.'),
{
    if name.len() > 0 && name[0] == '.' {
        assert(name =~= seq!['.'] + name.skip(1));
    }
}

/// Whether `at` is the time that `mtime` tells: as many seconds behind the epoch,
/// and none where it does not lie behind it.
pub open spec fn is_time_of(at: Option<u64>, mtime: i64) -> bool {
    match at {
        Some(seconds) => seconds == mtime && mtime > 0,
        None => mtime <= 0,
    }
}

/// A file without a write bit is read-only.
pub proof fn law_readonly_is_without_write_bits(permissions: &FilePermissions, readonly: bool)
    requires
        call_ensures(FilePermissions::is_readonly, (permissions,), readonly),
    ensures
        readonly <==> !has_bit(permissions.mode, 128) && !has_bit(permissions.mode, 16)
            && !has_bit(permissions.mode, 2),
{
    lemma_write_bits(permissions.mode);
}

/// The superuser may always write. The owner may where the owner's bit is set,
/// another member of the group where the group's is, anyone else where the last is.
pub proof fn law_write_bits_hold_for_their_class(
    permissions: &FilePermissions,
    user: &UserIdentity,
    uid: u32,
    gid: u32,
    readonly: bool,
)
    requires
        call_ensures(
            FilePermissions::is_readonly_for_user,
            (permissions, user, uid, gid),
            readonly,
        ),
    ensures
        user.euid == 0 ==> !readonly,
        user.euid != 0 && user.euid == uid ==> (readonly <==> !has_bit(permissions.mode, 128)),
        user.euid != 0 && user.euid != uid && (exists|i: int|
            0 <= i < user.groups@.len() && #[trigger] user.groups@[i] == gid) ==> (readonly
            <==> !has_bit(permissions.mode, 16)),
        user.euid != 0 && user.euid != uid && (forall|i: int|
            0 <= i < user.groups@.len() ==> #[trigger] user.groups@[i] != gid) ==> (readonly
            <==> !has_bit(permissions.mode, 2)),
{
    lemma_write_bits(permissions.mode);
    if exists|i: int| 0 <= i < user.groups@.len() && #[trigger] user.groups@[i] == gid {
        let i = choose|i: int| 0 <= i < user.groups@.len() && #[trigger] user.groups@[i] == gid;
        assert(user.groups@.contains(gid));
    }
}

/// A `stat` record keeps its size, time, permission bits and owner. The file is
/// hidden by its name, and read-only as its permission bits say of this user; on a
/// host without user ids it has no owner, and is read-only where nobody may write.
pub proof fn law_stat_record_is_kept(
    record: &RemoteMetadata,
    name: &str,
    user: Option<&UserIdentity>,
    meta: FileMetadata,
    readonly: bool,
)
    requires
        call_ensures(RemoteFileSystem::convert_metadata, (record, name, user), meta),
        match user {
            Some(u) => call_ensures(
                FilePermissions::is_readonly_for_user,
                (&FilePermissions { mode: record.mode }, u, record.uid, record.gid),
                readonly,
            ),
            None => call_ensures(
                FilePermissions::is_readonly,
                (&FilePermissions { mode: record.mode },),
                readonly,
            ),
        },
    ensures
        meta.size == record.size,
        is_time_of(meta.modified, record.mtime),
        meta.permissions matches Some(p) && p.mode == record.mode,
        meta.is_hidden <==> starts_with_dot(name@),
        meta.is_readonly == readonly,
        user is Some ==> meta.uid == Some(record.uid) && meta.gid == Some(record.gid),
        user is None ==> meta.uid is None && meta.gid is None,
{
    lemma_hidden(name@);
}

/// The metadata of a path is that of a file with the last name in it; a path without
/// one has a name that hides nothing.
pub proof fn law_metadata_is_named_after_the_path(
    record: &RemoteMetadata,
    path: &str,
    user: Option<&UserIdentity>,
    last: Option<String>,
    name: &str,
    at_path: FileMetadata,
    by_name: FileMetadata,
    replied: Result<FileMetadata, FsError>,
)
    requires
        call_ensures(RemoteFileSystem::convert_metadata_at, (record, path, user), at_path),
        call_ensures(file_name_of, (path,), last),
        call_ensures(RemoteFileSystem::convert_metadata, (record, name, user), by_name),
        match last {
            Some(n) => name@ == n@,
            None => name@.len() == 0,
        },
        call_ensures(
            RemoteFileSystem::metadata_reply,
            (path, Ok(Ok(*record)), user),
            replied,
        ),
    ensures
        at_path == by_name,
        replied == Ok::<FileMetadata, FsError>(by_name),
{
    assert(last is None ==> name@ =~= Seq::empty());
}

/// Whether `entry` keeps what the agent's record lists.
pub open spec fn keeps_record(entry: DirEntry, record: RemoteDirEntry) -> bool {
    &&& entry.path@ == record.path@
    &&& entry.name@ == record.name@
    &&& entry.entry_type == EntryType::Symlink <==> record.link
    &&& entry.entry_type == EntryType::Directory <==> record.dir && !record.link
    &&& entry.entry_type == EntryType::File <==> !record.dir && !record.link
    &&& entry.symlink_target_is_dir <==> record.link_dir
    &&& entry.metadata matches Some(meta)
    &&& meta.size == record.size
    &&& is_time_of(meta.modified, record.mtime)
    &&& meta.permissions matches Some(p)
    &&& p.mode == record.mode
    &&& meta.is_hidden <==> starts_with_dot(record.name@)
    &&& meta.is_readonly <==> !has_bit(record.mode, 128) && !has_bit(record.mode, 16) && !has_bit(
        record.mode,
        2,
    )
    &&& meta.uid is None
    &&& meta.gid is None
}

/// A listed entry keeps its path, name, size, time and permission bits. It is a link
/// where the record says so, whatever else it says; it leads to a directory exactly
/// where the record says that it does.
pub proof fn law_listed_entry_is_kept(record: &RemoteDirEntry, entry: DirEntry, link: bool)
    requires
        call_ensures(RemoteFileSystem::convert_dir_entry, (record,), entry),
        call_ensures(DirEntry::is_symlink, (&entry,), link),
    ensures
        keeps_record(entry, *record),
        link <==> record.link,
{
    lemma_hidden(record.name@);
    lemma_write_bits(record.mode);
}

/// A listing has an entry for each of the agent's records, in the agent's order.
pub proof fn law_listing_is_complete(
    records: Vec<RemoteDirEntry>,
    entries: Result<Vec<DirEntry>, FsError>,
)
    requires
        call_ensures(RemoteFileSystem::read_dir_reply, (Ok(Some(records)),), entries),
    ensures
        entries matches Ok(list) && {
            &&& list@.len() == records@.len()
            &&& forall|i: int|
                0 <= i < records@.len() ==> keeps_record(#[trigger] list@[i], records@[i])
        },
{
    if let Ok(list) = entries {
        assert forall|i: int| 0 <= i < records@.len() implies keeps_record(
            #[trigger] list@[i],
            records@[i],
        ) by {
            assert(crate::remote::metadata::is_entry_of(list@[i], records@[i]));
            lemma_hidden(records@[i].name@);
            lemma_write_bits(records@[i].mode);
        }
    }
}

/// An answer without a readable list is an empty listing.
pub proof fn law_unreadable_listing_is_empty(entries: Result<Vec<DirEntry>, FsError>)
    requires
        call_ensures(RemoteFileSystem::read_dir_reply, (Ok(None),), entries),
    ensures
        entries matches Ok(list) && list@.len() == 0,
{
}

} // verus!
