//! Failures of remote file operations.
use vstd::prelude::*;

use crate::remote::RemoteFileSystem;
use crate::text::{contains, contains_text};

verus! {

/// `std::io::Error`, carried as an opaque value.
#[verifier::external_type_specification]
#[verifier::external_body]
pub struct ExIoError(std::io::Error);

/// The kinds of failure that remote file operations tell apart.
#[derive(Clone, Copy, Debug, PartialEq, Eq)]
pub enum FaultKind {
    NotFound,
    PermissionDenied,
    IsADirectory,
    NotADirectory,
    InvalidData,
    InvalidInput,
    UnexpectedEof,
    Other,
}

/// A failed file operation: an I/O error of the link as it came, or a failure
/// with its kind and message.
#[derive(Debug)]
pub enum FsError {
    Link(std::io::Error),
    Fault { kind: FaultKind, message: String },
}

/// The mathematical value of a [`FsError`].
pub enum FsErrorView {
    Link(std::io::Error),
    Fault { kind: FaultKind, message: Seq<char> },
}

impl FsError {
    pub open spec fn view(&self) -> FsErrorView {
        match self {
            FsError::Link(e) => FsErrorView::Link(*e),
            FsError::Fault { kind, message } => FsErrorView::Fault {
                kind: *kind,
                message: message@,
            },
        }
    }

    /// The kind of a failure; an I/O error of the link has none here.
    pub fn kind(&self) -> (kind: Option<FaultKind>)
        ensures
            kind == match self@ {
                FsErrorView::Link(_) => None,
                FsErrorView::Fault { kind, .. } => Some(kind),
            },
    {
        match self {
            FsError::Link(_) => None,
            FsError::Fault { kind, .. } => Some(*kind),
        }
    }
}

/// Builds a failure from its kind and message.
pub fn fault(kind: FaultKind, message: &str) -> (e: FsError)
    ensures
        e@ == (FsErrorView::Fault { kind, message: message@ }),
{
    FsError::Fault { kind, message: message.to_owned() }
}

/// Why the channel to the agent did not answer a request.
#[derive(Debug)]
pub enum ChannelError {
    /// The link failed.
    Io(std::io::Error),
    /// The agent answered with an error message.
    Remote(String),
    /// Anything else, with the text that describes it.
    Other(String),
}

/// The mathematical value of a [`ChannelError`].
pub enum ChannelErrorView {
    Io(std::io::Error),
    Remote(Seq<char>),
    Other(Seq<char>),
}

impl ChannelError {
    pub open spec fn view(&self) -> ChannelErrorView {
        match self {
            ChannelError::Io(e) => ChannelErrorView::Io(*e),
            ChannelError::Remote(msg) => ChannelErrorView::Remote(msg@),
            ChannelError::Other(text) => ChannelErrorView::Other(text@),
        }
    }
}

/// The kind that an agent's error message tells of: the first phrase that it
/// contains decides.
pub open spec fn remote_kind(msg: Seq<char>) -> FaultKind {
    if contains(msg, "not found"@) || contains(msg, "No such file"@) {
        FaultKind::NotFound
    } else if contains(msg, "permission denied"@) {
        FaultKind::PermissionDenied
    } else if contains(msg, "is a directory"@) {
        FaultKind::IsADirectory
    } else if contains(msg, "not a directory"@) {
        FaultKind::NotADirectory
    } else {
        FaultKind::Other
    }
}

/// The failure that a channel error means for a file operation.
pub open spec fn io_error_of(e: ChannelErrorView) -> FsErrorView {
    match e {
        ChannelErrorView::Io(inner) => FsErrorView::Link(inner),
        ChannelErrorView::Remote(msg) => FsErrorView::Fault {
            kind: remote_kind(msg),
            message: msg,
        },
        ChannelErrorView::Other(text) => FsErrorView::Fault {
            kind: FaultKind::Other,
            message: text,
        },
    }
}

impl RemoteFileSystem {
    /// The failure that a channel error means for a file operation.
    pub fn to_io_error(e: ChannelError) -> (failure: FsError)
        ensures
            failure@ == io_error_of(e@),
    {
        match e {
            ChannelError::Io(inner) => FsError::Link(inner),
            ChannelError::Remote(msg) => {
                let text = msg.as_str();
                let kind = if contains_text(text, "not found")
                    || contains_text(text, "No such file") {
                    FaultKind::NotFound
                } else if contains_text(text, "permission denied") {
                    FaultKind::PermissionDenied
                } else if contains_text(text, "is a directory") {
                    FaultKind::IsADirectory
                } else if contains_text(text, "not a directory") {
                    FaultKind::NotADirectory
                } else {
                    FaultKind::Other
                };
                FsError::Fault { kind, message: msg }
            },
            ChannelError::Other(text) => FsError::Fault { kind: FaultKind::Other, message: text },
        }
    }
}

} // verus!
