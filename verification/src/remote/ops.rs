//! Operations that keep nothing: each is a request to the agent and a reading of
//! its answer.
use vstd::prelude::*;

use crate::error::{fault, io_error_of, ChannelError, FaultKind, FsError, FsErrorView};
use crate::json::{object_view, Json, JsonView};
use crate::model::{FilePermissions, WriteOp};
use crate::path::{is_same_path, same_path};
use crate::protocol::{
    patch_ops_view, write_op_view, write_ops_view, Params, ParamsView, PatchOp, Request,
    RequestView,
};
use crate::remote::metadata::{ask_stat, stat_request};
use crate::remote::RemoteFileSystem;

verus! {

/// A request whose only parameter is a path.
pub open spec fn path_request(method: Seq<char>, path: Seq<char>) -> RequestView {
    RequestView { method, params: ParamsView::Fields(seq![("path"@, JsonView::Str(path))]) }
}

/// A request from one path to another.
pub open spec fn pair_request(method: Seq<char>, from: Seq<char>, to: Seq<char>) -> RequestView {
    RequestView {
        method,
        params: ParamsView::Fields(
            seq![("from"@, JsonView::Str(from)), ("to"@, JsonView::Str(to))],
        ),
    }
}

/// The request that replaces the contents of `path`.
pub open spec fn write_request(path: Seq<char>, data: Seq<u8>) -> RequestView {
    RequestView { method: "write"@, params: ParamsView::Write { path, data } }
}

/// What an answer without contents means.
pub open spec fn acknowledged(reply: Result<Json, ChannelError>) -> Result<(), FsErrorView> {
    match reply {
        Ok(_) => Ok(()),
        Err(e) => Err(io_error_of(e@)),
    }
}

/// The value of a result that carries nothing.
pub open spec fn unit_result(r: Result<(), FsError>) -> Result<(), FsErrorView> {
    match r {
        Ok(_) => Ok(()),
        Err(e) => Err(e@),
    }
}

/// The count that a `count_lf` answer gives.
pub open spec fn replied_count(reply: Result<Json, ChannelError>) -> Result<usize, FsErrorView> {
    match reply {
        Ok(answer) => match answer@.u64_field("count"@) {
            Some(n) => Ok(n as usize),
            None => Err(
                FsErrorView::Fault {
                    kind: FaultKind::InvalidData,
                    message: "missing count in count_lf response"@,
                },
            ),
        },
        Err(e) => Err(io_error_of(e@)),
    }
}

/// The number of bytes that a `cp` answer reports, zero where it reports none.
pub open spec fn replied_size(reply: Result<Json, ChannelError>) -> Result<u64, FsErrorView> {
    match reply {
        Ok(answer) => match answer@.u64_field("size"@) {
            Some(n) => Ok(n),
            None => Ok(0),
        },
        Err(e) => Err(io_error_of(e@)),
    }
}

/// What a `stat` answer says under `key`, `false` where it says nothing.
pub open spec fn replied_flag(reply: Result<Json, ChannelError>, key: Seq<char>) -> Result<
    bool,
    FsErrorView,
> {
    match reply {
        Ok(answer) => match answer@.bool_field(key) {
            Some(b) => Ok(b),
            None => Ok(false),
        },
        Err(e) => Err(io_error_of(e@)),
    }
}

/// The value of a result that carries a plain value.
pub open spec fn plain_result<T>(r: Result<T, FsError>) -> Result<T, FsErrorView> {
    match r {
        Ok(x) => Ok(x),
        Err(e) => Err(e@),
    }
}

/// Asks for `method` on `path`.
pub(crate) fn ask_path(method: &'static str, path: &str) -> (question: Request)
    ensures
        question@ == path_request(method@, path@),
{
    let fields = vec![("path".to_owned(), Json::Str(path.to_owned()))];
    assert(object_view(fields@) =~= seq![("path"@, JsonView::Str(path@))]);
    Request { method, params: Params::Fields(fields) }
}

fn ask_pair(method: &'static str, from: &str, to: &str) -> (question: Request)
    ensures
        question@ == pair_request(method@, from@, to@),
{
    let fields = vec![
        ("from".to_owned(), Json::Str(from.to_owned())),
        ("to".to_owned(), Json::Str(to.to_owned())),
    ];
    assert(object_view(fields@) =~= seq![
        ("from"@, JsonView::Str(from@)),
        ("to"@, JsonView::Str(to@)),
    ]);
    Request { method, params: Params::Fields(fields) }
}

fn reply_flag(reply: Result<Json, ChannelError>, key: &str) -> (flag: Result<bool, FsError>)
    ensures
        plain_result(flag) == replied_flag(reply, key@),
{
    match reply {
        Ok(answer) => match answer.bool_field(key) {
            Some(b) => Ok(b),
            None => Ok(false),
        },
        Err(e) => Err(RemoteFileSystem::to_io_error(e)),
    }
}

/// Asks to replace the contents of `path`.
pub(crate) fn ask_write(path: &str, data: &[u8]) -> (question: Request)
    ensures
        question@ == write_request(path@, data@),
{
    Request {
        method: "write",
        params: Params::Write { path: path.to_owned(), data: vstd::slice::slice_to_vec(data) },
    }
}

fn patch_op(op: &WriteOp) -> (patch: PatchOp)
    ensures
        patch@ == write_op_view(*op),
{
    match op {
        WriteOp::Copy { offset, len } => PatchOp::Copy { offset: *offset, len: *len },
        WriteOp::Insert { data } => PatchOp::Insert {
            data: vstd::slice::slice_to_vec(data.as_slice()),
        },
    }
}

impl RemoteFileSystem {
    /// Whether the agent carried out a request whose answer carries nothing.
    pub fn acknowledge(reply: Result<Json, ChannelError>) -> (done: Result<(), FsError>)
        ensures
            unit_result(done) == acknowledged(reply),
    {
        match reply {
            Ok(_) => Ok(()),
            Err(e) => Err(Self::to_io_error(e)),
        }
    }

    /// Asks how many line feeds lie in `len` bytes of `path` from `offset` on.
    pub fn count_line_feeds_in_range(&self, path: &str, offset: u64, len: usize) -> (question:
        Request)
        ensures
            question@ == (RequestView {
                method: "count_lf"@,
                params: ParamsView::CountLf { path: path@, offset, len },
            }),
    {
        Request {
            method: "count_lf",
            params: Params::CountLf { path: path.to_owned(), offset, len },
        }
    }

    /// The number of line feeds, from the answer.
    pub fn count_line_feeds_reply(reply: Result<Json, ChannelError>) -> (count: Result<
        usize,
        FsError,
    >)
        ensures
            plain_result(count) == replied_count(reply),
    {
        match reply {
            Ok(answer) => match answer.u64_field("count") {
                Some(n) => Ok(n as usize),
                None => Err(fault(FaultKind::InvalidData, "missing count in count_lf response")),
            },
            Err(e) => Err(Self::to_io_error(e)),
        }
    }

    /// Asks to replace the contents of `path`.
    pub fn write_file(&self, path: &str, data: &[u8]) -> (question: Request)
        ensures
            question@ == write_request(path@, data@),
    {
        ask_write(path, data)
    }

    /// Asks to cut `path` to `len` bytes, or to lengthen it.
    pub fn set_file_length(&self, path: &str, len: u64) -> (question: Request)
        ensures
            question@ == (RequestView {
                method: "truncate"@,
                params: ParamsView::Truncate { path: path@, len },
            }),
    {
        Request { method: "truncate", params: Params::Truncate { path: path.to_owned(), len } }
    }

    /// Asks to build `dst` out of ranges of `src` and new bytes. The destination
    /// is named only where it is another file than the source.
    pub fn write_patched(&self, src: &str, dst: &str, ops: &Vec<WriteOp>) -> (question: Request)
        ensures
            question@ == (RequestView {
                method: "patch"@,
                params: ParamsView::Patch {
                    src: src@,
                    dst: if same_path(src@, dst@) {
                        None
                    } else {
                        Some(dst@)
                    },
                    ops: write_ops_view(ops@),
                },
            }),
    {
        let mut patch_ops: Vec<PatchOp> = Vec::new();
        let mut i: usize = 0;
        while i < ops.len()
            invariant
                i <= ops.len(),
                patch_ops_view(patch_ops@) == write_ops_view(ops@).take(i as int),
            decreases ops.len() - i,
        {
            let ghost before = patch_ops@;
            let op = patch_op(&ops[i]);
            patch_ops.push(op);
            assert(patch_ops_view(patch_ops@) =~= patch_ops_view(before).push(
                write_op_view(ops@[i as int]),
            ));
            i += 1;
        }
        assert(patch_ops_view(patch_ops@) =~= write_ops_view(ops@));
        let target = if is_same_path(src, dst) {
            None
        } else {
            Some(dst.to_owned())
        };
        Request {
            method: "patch",
            params: Params::Patch { src: src.to_owned(), dst: target, ops: patch_ops },
        }
    }

    /// Asks to move `from` to `to`.
    pub fn rename(&self, from: &str, to: &str) -> (question: Request)
        ensures
            question@ == pair_request("mv"@, from@, to@),
    {
        ask_pair("mv", from, to)
    }

    /// Asks to copy `from` to `to`.
    pub fn copy(&self, from: &str, to: &str) -> (question: Request)
        ensures
            question@ == pair_request("cp"@, from@, to@),
    {
        ask_pair("cp", from, to)
    }

    /// The number of bytes copied, from the answer.
    pub fn copy_reply(reply: Result<Json, ChannelError>) -> (size: Result<u64, FsError>)
        ensures
            plain_result(size) == replied_size(reply),
    {
        match reply {
            Ok(answer) => match answer.u64_field("size") {
                Some(n) => Ok(n),
                None => Ok(0),
            },
            Err(e) => Err(Self::to_io_error(e)),
        }
    }

    /// Asks to remove the file `path`.
    pub fn remove_file(&self, path: &str) -> (question: Request)
        ensures
            question@ == path_request("rm"@, path@),
    {
        ask_path("rm", path)
    }

    /// Asks to remove the directory `path`.
    pub fn remove_dir(&self, path: &str) -> (question: Request)
        ensures
            question@ == path_request("rmdir"@, path@),
    {
        ask_path("rmdir", path)
    }

    /// Asks whether `path` is a directory.
    pub fn is_dir(&self, path: &str) -> (question: Request)
        ensures
            question@ == stat_request(path@, true),
    {
        ask_stat(path, true)
    }

    /// Whether a path is a directory, from the answer.
    pub fn is_dir_reply(reply: Result<Json, ChannelError>) -> (flag: Result<bool, FsError>)
        ensures
            plain_result(flag) == replied_flag(reply, "dir"@),
    {
        reply_flag(reply, "dir")
    }

    /// Asks whether `path` is a plain file.
    pub fn is_file(&self, path: &str) -> (question: Request)
        ensures
            question@ == stat_request(path@, true),
    {
        ask_stat(path, true)
    }

    /// Whether a path is a plain file, from the answer.
    pub fn is_file_reply(reply: Result<Json, ChannelError>) -> (flag: Result<bool, FsError>)
        ensures
            plain_result(flag) == replied_flag(reply, "file"@),
    {
        reply_flag(reply, "file")
    }

    /// Asks to set the permission bits of `path`.
    pub fn set_permissions(&self, path: &str, permissions: &FilePermissions) -> (question: Request)
        ensures
            question@ == (RequestView {
                method: "chmod"@,
                params: ParamsView::Fields(
                    seq![
                        ("path"@, JsonView::Str(path@)),
                        ("mode"@, JsonView::UInt(permissions.mode as u64)),
                    ],
                ),
            }),
    {
        let fields = vec![
            ("path".to_owned(), Json::Str(path.to_owned())),
            ("mode".to_owned(), Json::UInt(permissions.mode() as u64)),
        ];
        assert(object_view(fields@) =~= seq![
            ("path"@, JsonView::Str(path@)),
            ("mode"@, JsonView::UInt(permissions.mode as u64)),
        ]);
        Request { method: "chmod", params: Params::Fields(fields) }
    }

    /// Asks to make the directory `path`.
    pub fn create_dir(&self, path: &str) -> (question: Request)
        ensures
            question@ == path_request("mkdir"@, path@),
    {
        ask_path("mkdir", path)
    }

    /// Asks to make the directory `path` and those above it.
    pub fn create_dir_all(&self, path: &str) -> (question: Request)
        ensures
            question@ == (RequestView {
                method: "mkdir"@,
                params: ParamsView::Fields(
                    seq![("path"@, JsonView::Str(path@)), ("parents"@, JsonView::Bool(true))],
                ),
            }),
    {
        let fields = vec![
            ("path".to_owned(), Json::Str(path.to_owned())),
            ("parents".to_owned(), Json::Bool(true)),
        ];
        assert(object_view(fields@) =~= seq![
            ("path"@, JsonView::Str(path@)),
            ("parents"@, JsonView::Bool(true)),
        ]);
        Request { method: "mkdir", params: Params::Fields(fields) }
    }

    /// Asks to write `path` with raised privileges, and to set its permission
    /// bits and owner.
    pub fn sudo_write(&self, path: &str, data: &[u8], mode: u32, uid: u32, gid: u32) -> (question:
        Request)
        ensures
            question@ == (RequestView {
                method: "sudo_write"@,
                params: ParamsView::SudoWrite { path: path@, data: data@, mode, uid, gid },
            }),
    {
        Request {
            method: "sudo_write",
            params: Params::SudoWrite {
                path: path.to_owned(),
                data: vstd::slice::slice_to_vec(data),
                mode,
                uid,
                gid,
            },
        }
    }
}

} // verus!
