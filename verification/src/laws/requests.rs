//! Operations that are a request and an answer.
use vstd::prelude::*;

use crate::error::{ChannelError, FaultKind, FsError};
use crate::json::{object_view, Json, JsonView};
use crate::laws::prefetch::asks_for_metadata;
use crate::model::{FilePermissions, WriteOp};
use crate::path::is_same_path;
use crate::protocol::{Params, PatchOp, Request};
use crate::remote::handles::RemoteFileWriter;
use crate::remote::RemoteFileSystem;

verus! {

/// Whether `q` asks for `method` with exactly these named parameters.
pub open spec fn has_fields(
    q: Request,
    method: Seq<char>,
    fields: Seq<(Seq<char>, JsonView)>,
) -> bool {
    &&& q.method@ == method
    &&& q.params matches Params::Fields(given)
    &&& given@.len() == fields.len()
    &&& forall|i: int|
        0 <= i < fields.len() ==> (#[trigger] given@[i]).0@ == fields[i].0 && given@[i].1@
            == fields[i].1
}

pub proof fn lemma_fields(q: Request)
    ensures
        q.params matches Params::Fields(given) ==> forall|i: int|
            0 <= i < given@.len() ==> #[trigger] object_view(given@)[i] == (
                given@[i].0@,
                given@[i].1@,
            ),
{
}

/// Removing a file names that file.
pub proof fn law_remove_file_names_the_file(fs: &RemoteFileSystem, path: &str, q: Request)
    requires
        call_ensures(RemoteFileSystem::remove_file, (fs, path), q),
    ensures
        has_fields(q, "rm"@, seq![("path"@, JsonView::Str(path@))]),
{
    lemma_fields(q);
}

/// Removing a directory names that directory.
pub proof fn law_remove_dir_names_the_directory(fs: &RemoteFileSystem, path: &str, q: Request)
    requires
        call_ensures(RemoteFileSystem::remove_dir, (fs, path), q),
    ensures
        has_fields(q, "rmdir"@, seq![("path"@, JsonView::Str(path@))]),
{
    lemma_fields(q);
}

/// A new directory is made at its path alone.
pub proof fn law_create_dir_names_the_directory(fs: &RemoteFileSystem, path: &str, q: Request)
    requires
        call_ensures(RemoteFileSystem::create_dir, (fs, path), q),
    ensures
        has_fields(q, "mkdir"@, seq![("path"@, JsonView::Str(path@))]),
{
    lemma_fields(q);
}

/// A new directory with those above it says so.
pub proof fn law_create_dir_all_asks_for_parents(fs: &RemoteFileSystem, path: &str, q: Request)
    requires
        call_ensures(RemoteFileSystem::create_dir_all, (fs, path), q),
    ensures
        has_fields(
            q,
            "mkdir"@,
            seq![("path"@, JsonView::Str(path@)), ("parents"@, JsonView::Bool(true))],
        ),
{
    lemma_fields(q);
}

/// A move goes from the one path to the other.
pub proof fn law_rename_goes_from_one_to_the_other(
    fs: &RemoteFileSystem,
    from: &str,
    to: &str,
    q: Request,
)
    requires
        call_ensures(RemoteFileSystem::rename, (fs, from, to), q),
    ensures
        has_fields(
            q,
            "mv"@,
            seq![("from"@, JsonView::Str(from@)), ("to"@, JsonView::Str(to@))],
        ),
{
    lemma_fields(q);
}

/// A copy goes from the one path to the other.
pub proof fn law_copy_goes_from_one_to_the_other(
    fs: &RemoteFileSystem,
    from: &str,
    to: &str,
    q: Request,
)
    requires
        call_ensures(RemoteFileSystem::copy, (fs, from, to), q),
    ensures
        has_fields(
            q,
            "cp"@,
            seq![("from"@, JsonView::Str(from@)), ("to"@, JsonView::Str(to@))],
        ),
{
    lemma_fields(q);
}

/// Setting permissions names the file and all of its new bits.
pub proof fn law_permissions_are_sent_whole(
    fs: &RemoteFileSystem,
    path: &str,
    permissions: &FilePermissions,
    mode: u32,
    q: Request,
)
    requires
        call_ensures(RemoteFileSystem::set_permissions, (fs, path, permissions), q),
        call_ensures(FilePermissions::mode, (permissions,), mode),
    ensures
        has_fields(
            q,
            "chmod"@,
            seq![("path"@, JsonView::Str(path@)), ("mode"@, JsonView::UInt(mode as u64))],
        ),
{
    lemma_fields(q);
}

/// Permission bits come out as they went in.
pub proof fn law_mode_is_kept(mode: u32, permissions: FilePermissions, out: u32)
    requires
        call_ensures(FilePermissions::from_mode, (mode,), permissions),
        call_ensures(FilePermissions::mode, (&permissions,), out),
    ensures
        out == mode,
{
}

/// Written bytes are sent as they are, to the file they are for.
pub proof fn law_write_sends_the_bytes(
    fs: &RemoteFileSystem,
    path: &str,
    data: &[u8],
    q: Request,
)
    requires
        call_ensures(RemoteFileSystem::write_file, (fs, path, data), q),
    ensures
        q.method@ == "write"@,
        q.params matches Params::Write { path: p, data: d } && p@ == path@ && d@ == data@,
{
}

/// A created file starts out empty.
pub proof fn law_created_file_is_empty(fs: &RemoteFileSystem, path: &str, q: Request)
    requires
        call_ensures(RemoteFileSystem::create_file, (fs, path), q),
    ensures
        q.method@ == "write"@,
        q.params matches Params::Write { path: p, data: d } && p@ == path@ && d@.len() == 0,
{
}

/// A file is created where the agent says so, and its writer writes to it with
/// nothing written so far.
pub proof fn law_created_file_is_written_to(
    path: &str,
    reply: Result<Json, ChannelError>,
    writer: Result<RemoteFileWriter, FsError>,
    q: Request,
)
    requires
        call_ensures(RemoteFileSystem::create_file_reply, (path, reply), writer),
        writer matches Ok(w) ==> call_ensures(RemoteFileWriter::sync_all, (&w,), q),
    ensures
        reply is Ok <==> writer is Ok,
        writer is Ok ==> {
            &&& q.method@ == "write"@
            &&& q.params matches Params::Write { path: p, data: d }
            &&& p@ == path@
            &&& d@.len() == 0
        },
{
}

/// What the agent did is done.
pub proof fn law_acknowledged_is_done(answer: Json, done: Result<(), FsError>)
    requires
        call_ensures(RemoteFileSystem::acknowledge, (Ok(answer),), done),
    ensures
        done is Ok,
{
}

/// A file gets exactly the length that is asked for.
pub proof fn law_length_is_sent(fs: &RemoteFileSystem, path: &str, len: u64, q: Request)
    requires
        call_ensures(RemoteFileSystem::set_file_length, (fs, path, len), q),
    ensures
        q.method@ == "truncate"@,
        q.params matches Params::Truncate { path: p, len: l } && p@ == path@ && l == len,
{
}

/// A privileged write sends the file, its bytes, its permission bits and its owner.
pub proof fn law_privileged_write_sends_everything(
    fs: &RemoteFileSystem,
    path: &str,
    data: &[u8],
    mode: u32,
    uid: u32,
    gid: u32,
    q: Request,
)
    requires
        call_ensures(RemoteFileSystem::sudo_write, (fs, path, data, mode, uid, gid), q),
    ensures
        q.method@ == "sudo_write"@,
        q.params matches Params::SudoWrite { path: p, data: d, mode: m, uid: u, gid: g } && p@
            == path@ && d@ == data@ && m == mode && u == uid && g == gid,
{
}

/// Line feeds are counted in the range that is asked for.
pub proof fn law_line_feeds_are_counted_in_the_range(
    fs: &RemoteFileSystem,
    path: &str,
    offset: u64,
    len: usize,
    q: Request,
)
    requires
        call_ensures(RemoteFileSystem::count_line_feeds_in_range, (fs, path, offset, len), q),
    ensures
        q.method@ == "count_lf"@,
        q.params matches Params::CountLf { path: p, offset: o, len: l } && p@ == path@ && o
            == offset && l == len,
{
}

/// The count is the number that the agent answered; an answer without one is an
/// error.
pub proof fn law_count_is_the_answer(answer: Json, count: Result<usize, FsError>)
    requires
        call_ensures(RemoteFileSystem::count_line_feeds_reply, (Ok(answer),), count),
    ensures
        match count {
            Ok(n) => answer@.u64_field("count"@) matches Some(c) && n == c as usize,
            Err(FsError::Fault { kind, message }) => {
                &&& answer@.u64_field("count"@) is None
                &&& kind == FaultKind::InvalidData
                &&& message@ == "missing count in count_lf response"@
            },
            Err(FsError::Link(_)) => false,
        },
{
}

/// A copy is as large as the agent says; where it does not say, nothing is claimed
/// to be copied.
pub proof fn law_copied_size_is_the_answer(answer: Json, size: Result<u64, FsError>)
    requires
        call_ensures(RemoteFileSystem::copy_reply, (Ok(answer),), size),
    ensures
        size matches Ok(n) && n == match answer@.u64_field("size"@) {
            Some(s) => s,
            None => 0,
        },
{
}

/// A path is a directory exactly where the agent says that it is one.
pub proof fn law_directory_is_what_the_agent_calls_one(
    answer: Json,
    flag: Result<bool, FsError>,
)
    requires
        call_ensures(RemoteFileSystem::is_dir_reply, (Ok(answer),), flag),
    ensures
        flag matches Ok(b) && (b <==> answer@.bool_field("dir"@) == Some(true)),
{
}

/// A path is a plain file exactly where the agent says that it is one.
pub proof fn law_file_is_what_the_agent_calls_one(answer: Json, flag: Result<bool, FsError>)
    requires
        call_ensures(RemoteFileSystem::is_file_reply, (Ok(answer),), flag),
    ensures
        flag matches Ok(b) && (b <==> answer@.bool_field("file"@) == Some(true)),
{
}

/// What a path is, is asked of what a link leads to; a link's own metadata is asked
/// of the link itself.
pub proof fn law_links_are_followed_but_for_their_own_metadata(
    fs: &RemoteFileSystem,
    path: &str,
    dir: Request,
    file: Request,
    link: Request,
)
    requires
        call_ensures(RemoteFileSystem::is_dir, (fs, path), dir),
        call_ensures(RemoteFileSystem::is_file, (fs, path), file),
        call_ensures(RemoteFileSystem::symlink_metadata, (fs, path), link),
    ensures
        asks_for_metadata(dir, path@, true),
        asks_for_metadata(file, path@, true),
        asks_for_metadata(link, path@, false),
{
}

/// A listing is asked for by the path of its directory.
pub proof fn law_listing_names_the_directory(fs: &RemoteFileSystem, path: &str, q: Request)
    requires
        call_ensures(RemoteFileSystem::read_dir, (fs, path), q),
    ensures
        q.method@ == "ls"@,
        q.params matches Params::List { path: p } && p@ == path@,
{
}

/// Whether the patch step is the write step.
pub open spec fn is_step(patch: PatchOp, op: WriteOp) -> bool {
    match (patch, op) {
        (PatchOp::Copy { offset: o, len: l }, WriteOp::Copy { offset, len }) => o == offset && l
            == len,
        (PatchOp::Insert { data: d }, WriteOp::Insert { data }) => d@ == data@,
        _ => false,
    }
}

/// A patched write sends every step, in order and as it is, and the path of its
/// source. It names its destination exactly where that is another file.
pub proof fn law_patch_sends_every_step(
    fs: &RemoteFileSystem,
    src: &str,
    dst: &str,
    ops: &Vec<WriteOp>,
    same: bool,
    q: Request,
)
    requires
        call_ensures(RemoteFileSystem::write_patched, (fs, src, dst, ops), q),
        call_ensures(is_same_path, (src, dst), same),
    ensures
        q.method@ == "patch"@,
        q.params matches Params::Patch { src: s, dst: d, ops: sent } && {
            &&& s@ == src@
            &&& same ==> d is None
            &&& !same ==> (d matches Some(t) && t@ == dst@)
            &&& sent@.len() == ops@.len()
            &&& forall|i: int| 0 <= i < ops@.len() ==> is_step(#[trigger] sent@[i], ops@[i])
        },
{
    if let Params::Patch { src: s, dst: d, ops: sent } = q.params {
        let sent_view = crate::protocol::patch_ops_view(sent@);
        let ops_view = crate::protocol::write_ops_view(ops@);
        assert(sent_view == ops_view);
        assert(sent_view.len() == sent@.len());
        assert forall|i: int| 0 <= i < ops@.len() implies is_step(#[trigger] sent@[i], ops@[i]) by {
            assert(sent_view[i] == ops_view[i]);
        }
    }
}

} // verus!
