//! The agent protocol: what is asked of the agent, and the records that its
//! answers hold.
use vstd::prelude::*;

use crate::json::{object_view, Json, JsonView};
use crate::model::WriteOp;

verus! {

/// A `stat` answer.
#[derive(Clone, Copy, Debug, PartialEq, Eq)]
pub struct RemoteMetadata {
    pub size: u64,
    /// Seconds since the Unix epoch.
    pub mtime: i64,
    pub mode: u32,
    pub uid: u32,
    pub gid: u32,
    pub dir: bool,
    pub file: bool,
    pub link: bool,
}

/// One entry of an `ls` answer.
#[derive(Debug, PartialEq, Eq)]
pub struct RemoteDirEntry {
    pub name: String,
    pub path: String,
    pub dir: bool,
    pub file: bool,
    pub link: bool,
    pub link_dir: bool,
    pub size: u64,
    /// Seconds since the Unix epoch.
    pub mtime: i64,
    pub mode: u32,
}

/// One step of a `patch` request.
#[derive(Debug, PartialEq, Eq)]
pub enum PatchOp {
    Copy { offset: u64, len: u64 },
    Insert { data: Vec<u8> },
}

/// The mathematical value of a [`PatchOp`] or a [`WriteOp`].
pub enum PatchOpView {
    Copy { offset: u64, len: u64 },
    Insert { data: Seq<u8> },
}

impl PatchOp {
    pub open spec fn view(&self) -> PatchOpView {
        match self {
            PatchOp::Copy { offset, len } => PatchOpView::Copy { offset: *offset, len: *len },
            PatchOp::Insert { data } => PatchOpView::Insert { data: data@ },
        }
    }
}

/// The patch operation that `op` asks for.
pub open spec fn write_op_view(op: WriteOp) -> PatchOpView {
    match op {
        WriteOp::Copy { offset, len } => PatchOpView::Copy { offset, len },
        WriteOp::Insert { data } => PatchOpView::Insert { data: data@ },
    }
}

pub open spec fn write_ops_view(ops: Seq<WriteOp>) -> Seq<PatchOpView> {
    Seq::new(ops.len(), |i: int| write_op_view(ops[i]))
}

pub open spec fn patch_ops_view(ops: Seq<PatchOp>) -> Seq<PatchOpView> {
    Seq::new(ops.len(), |i: int| ops[i]@)
}

/// The parameters of a request: either a JSON object spelled out field by field,
/// or the arguments of one of the protocol's own parameter builders.
#[allow(inconsistent_fields)]
#[derive(Debug)]
pub enum Params {
    Fields(Vec<(String, Json)>),
    Read { path: String, offset: Option<u64>, len: Option<usize> },
    Stat { path: String, follow: bool },
    CountLf { path: String, offset: u64, len: usize },
    Write { path: String, data: Vec<u8> },
    Append { path: String, data: Vec<u8> },
    Truncate { path: String, len: u64 },
    Patch { src: String, dst: Option<String>, ops: Vec<PatchOp> },
    List { path: String },
    SudoWrite { path: String, data: Vec<u8>, mode: u32, uid: u32, gid: u32 },
}

/// The mathematical value of [`Params`].
#[allow(inconsistent_fields)]
pub enum ParamsView {
    Fields(Seq<(Seq<char>, JsonView)>),
    Read { path: Seq<char>, offset: Option<u64>, len: Option<usize> },
    Stat { path: Seq<char>, follow: bool },
    CountLf { path: Seq<char>, offset: u64, len: usize },
    Write { path: Seq<char>, data: Seq<u8> },
    Append { path: Seq<char>, data: Seq<u8> },
    Truncate { path: Seq<char>, len: u64 },
    Patch { src: Seq<char>, dst: Option<Seq<char>>, ops: Seq<PatchOpView> },
    List { path: Seq<char> },
    SudoWrite { path: Seq<char>, data: Seq<u8>, mode: u32, uid: u32, gid: u32 },
}

/// The text of an optional string.
pub open spec fn text_of(s: Option<String>) -> Option<Seq<char>> {
    match s {
        Some(t) => Some(t@),
        None => None,
    }
}

impl Params {
    pub open spec fn view(&self) -> ParamsView {
        match self {
            Params::Fields(fields) => ParamsView::Fields(object_view(fields@)),
            Params::Read { path, offset, len } => ParamsView::Read {
                path: path@,
                offset: *offset,
                len: *len,
            },
            Params::Stat { path, follow } => ParamsView::Stat { path: path@, follow: *follow },
            Params::CountLf { path, offset, len } => ParamsView::CountLf {
                path: path@,
                offset: *offset,
                len: *len,
            },
            Params::Write { path, data } => ParamsView::Write { path: path@, data: data@ },
            Params::Append { path, data } => ParamsView::Append { path: path@, data: data@ },
            Params::Truncate { path, len } => ParamsView::Truncate { path: path@, len: *len },
            Params::Patch { src, dst, ops } => ParamsView::Patch {
                src: src@,
                dst: text_of(*dst),
                ops: patch_ops_view(ops@),
            },
            Params::List { path } => ParamsView::List { path: path@ },
            Params::SudoWrite { path, data, mode, uid, gid } => ParamsView::SudoWrite {
                path: path@,
                data: data@,
                mode: *mode,
                uid: *uid,
                gid: *gid,
            },
        }
    }
}

/// One request to the agent.
#[derive(Debug)]
pub struct Request {
    pub method: &'static str,
    pub params: Params,
}

/// The mathematical value of a [`Request`].
pub struct RequestView {
    pub method: Seq<char>,
    pub params: ParamsView,
}

impl Request {
    pub open spec fn view(&self) -> RequestView {
        RequestView { method: self.method@, params: self.params@ }
    }
}

/// What comes next: a result that is already there, or a question to the agent.
#[derive(Debug)]
pub enum Step<T> {
    Ready(T),
    Ask(Request),
}

} // verus!
