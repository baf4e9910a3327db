//! What becomes of requests that fail.
use vstd::prelude::*;

use crate::error::{fault, ChannelError, FaultKind, FsError};
use crate::model::{DirEntry, FileMetadata, FileSearchCursor, SearchMatch, UserIdentity};
use crate::remote::handles::{AppendingRemoteFileWriter, RemoteFileReader, RemoteFileWriter};
use crate::remote::RemoteFileSystem;
use crate::text::{contains, occurs_at};

verus! {

/// Whether `text` reads as something, then `phrase`, then something.
pub open spec fn says(text: Seq<char>, phrase: Seq<char>) -> bool {
    exists|before: Seq<char>, after: Seq<char>| text == #[trigger] (before + phrase + after)
}

pub proof fn lemma_says(text: Seq<char>, phrase: Seq<char>)
    ensures
        says(text, phrase) == contains(text, phrase),
{
    if says(text, phrase) {
        let (before, after) = choose|before: Seq<char>, after: Seq<char>|
            text == #[trigger] (before + phrase + after);
        let at = before.len() as int;
        assert(text.subrange(at, at + phrase.len()) =~= phrase);
        assert(occurs_at(text, phrase, at));
    }
    if contains(text, phrase) {
        let at = choose|at: int| occurs_at(text, phrase, at);
        let before = text.take(at);
        let after = text.skip(at + phrase.len());
        assert(text =~= before + phrase + after) by {
            assert(text.subrange(at, at + phrase.len()) =~= phrase);
        }
    }
}

/// Whether `kind` is what the agent's message tells of. Of several phrases the one
/// listed first decides.
pub open spec fn is_kind_of(kind: FaultKind, msg: Seq<char>) -> bool {
    let missing = says(msg, "not found"@) || says(msg, "No such file"@);
    let denied = !missing && says(msg, "permission denied"@);
    let directory = !missing && !denied && says(msg, "is a directory"@);
    let no_directory = !missing && !denied && !directory && says(msg, "not a directory"@);
    &&& kind == FaultKind::NotFound <==> missing
    &&& kind == FaultKind::PermissionDenied <==> denied
    &&& kind == FaultKind::IsADirectory <==> directory
    &&& kind == FaultKind::NotADirectory <==> no_directory
    &&& kind == FaultKind::Other <==> !missing && !denied && !directory && !no_directory
}

/// Whether `x` is how the channel's error `e` is reported: an error of the link as
/// it came; an agent's message as it reads, with its kind; any other error by its
/// text.
pub open spec fn reports(x: FsError, e: ChannelError) -> bool {
    match (e, x) {
        (ChannelError::Io(inner), FsError::Link(passed)) => passed == inner,
        (ChannelError::Remote(msg), FsError::Fault { kind, message }) => message@ == msg@
            && is_kind_of(kind, msg@),
        (ChannelError::Other(text), FsError::Fault { kind, message }) => message@ == text@ && kind
            == FaultKind::Other,
        _ => false,
    }
}

proof fn lemma_kinds(e: ChannelError)
    ensures
        e matches ChannelError::Remote(msg) ==> is_kind_of(
            crate::error::remote_kind(msg@),
            msg@,
        ),
{
    if let ChannelError::Remote(msg) = e {
        lemma_says(msg@, "not found"@);
        lemma_says(msg@, "No such file"@);
        lemma_says(msg@, "permission denied"@);
        lemma_says(msg@, "is a directory"@);
        lemma_says(msg@, "not a directory"@);
    }
}

/// Every channel error is reported as what it is.
pub proof fn law_channel_errors_are_reported(e: ChannelError, x: FsError)
    requires
        call_ensures(RemoteFileSystem::to_io_error, (e,), x),
    ensures
        reports(x, e),
{
    lemma_kinds(e);
}

/// A failure has the kind and the message that it was made with.
pub proof fn law_faults_keep_kind_and_message(
    kind: FaultKind,
    message: &str,
    x: FsError,
    told: Option<FaultKind>,
)
    requires
        call_ensures(fault, (kind, message), x),
        call_ensures(FsError::kind, (&x,), told),
    ensures
        x matches FsError::Fault { kind: k, message: m } && k == kind && m@ == message@,
        told == Some(kind),
{
}

/// An error of the link has no kind of its own here.
pub proof fn law_link_errors_have_no_kind(e: std::io::Error, told: Option<FaultKind>)
    requires
        call_ensures(FsError::kind, (&FsError::Link(e),), told),
    ensures
        told is None,
{
}

/// A failed read fails, as a file, as an open file and as a range.
pub proof fn law_failed_reads_fail(
    e: ChannelError,
    path: &str,
    offset: u64,
    len: usize,
    file: Result<Vec<u8>, FsError>,
    opened: Result<RemoteFileReader, FsError>,
    range: Result<Vec<u8>, FsError>,
    canon: Result<String, FsError>,
)
    requires
        call_ensures(RemoteFileSystem::read_file_reply, (Err(e),), file),
        call_ensures(RemoteFileSystem::open_file_reply, (Err(e),), opened),
        call_ensures(RemoteFileSystem::read_range_reply, (path, offset, len, Err(e)), range),
        call_ensures(RemoteFileSystem::canonicalize_reply, (Err(e),), canon),
    ensures
        file matches Err(x) && reports(x, e),
        opened matches Err(x) && reports(x, e),
        range matches Err(x) && reports(x, e),
        canon matches Err(x) && reports(x, e),
{
    lemma_kinds(e);
}

/// A failed question about a file fails.
pub proof fn law_failed_questions_fail(
    e: ChannelError,
    path: &str,
    user: Option<&UserIdentity>,
    meta: Result<FileMetadata, FsError>,
    entries: Result<Vec<DirEntry>, FsError>,
    count: Result<usize, FsError>,
    dir: Result<bool, FsError>,
    file: Result<bool, FsError>,
)
    requires
        call_ensures(RemoteFileSystem::metadata_reply, (path, Err(e), user), meta),
        call_ensures(RemoteFileSystem::read_dir_reply, (Err(e),), entries),
        call_ensures(RemoteFileSystem::count_line_feeds_reply, (Err(e),), count),
        call_ensures(RemoteFileSystem::is_dir_reply, (Err(e),), dir),
        call_ensures(RemoteFileSystem::is_file_reply, (Err(e),), file),
    ensures
        meta matches Err(x) && reports(x, e),
        entries matches Err(x) && reports(x, e),
        count matches Err(x) && reports(x, e),
        dir matches Err(x) && reports(x, e),
        file matches Err(x) && reports(x, e),
{
    lemma_kinds(e);
}

/// A failed change fails.
pub proof fn law_failed_changes_fail(
    e: ChannelError,
    path: &str,
    done: Result<(), FsError>,
    size: Result<u64, FsError>,
    writer: Result<RemoteFileWriter, FsError>,
)
    requires
        call_ensures(RemoteFileSystem::acknowledge, (Err(e),), done),
        call_ensures(RemoteFileSystem::copy_reply, (Err(e),), size),
        call_ensures(RemoteFileSystem::create_file_reply, (path, Err(e)), writer),
    ensures
        done matches Err(x) && reports(x, e),
        size matches Err(x) && reports(x, e),
        writer matches Err(x) && reports(x, e),
{
    lemma_kinds(e);
}

/// A failed search fails and leaves the cursor where it was.
pub proof fn law_failed_search_fails(
    cursor: &mut FileSearchCursor,
    e: ChannelError,
    found: Result<Vec<SearchMatch>, FsError>,
)
    requires
        call_ensures(RemoteFileSystem::search_file_reply, (cursor, Err(e)), found),
    ensures
        found matches Err(x) && reports(x, e),
        *final(cursor) == *old(cursor),
{
    lemma_kinds(e);
}

/// A link that cannot answer the priming question fails it, and nothing is learned.
pub proof fn law_failed_priming_fails(
    fs: &mut RemoteFileSystem,
    e: ChannelError,
    done: Result<(), FsError>,
)
    requires
        call_ensures(RemoteFileSystem::prime_sys_info_reply, (fs, Err(e)), done),
    ensures
        done matches Err(x) && reports(x, e),
        final(fs)@ == old(fs)@,
{
    lemma_kinds(e);
}

/// A failed sync fails, and all that was to be sent is still to be sent.
pub proof fn law_failed_sync_fails(
    writer: &mut AppendingRemoteFileWriter,
    e: ChannelError,
    done: Result<(), FsError>,
)
    requires
        call_ensures(AppendingRemoteFileWriter::sync_all_reply, (writer, Err(e)), done),
    ensures
        done matches Err(x) && reports(x, e),
        final(writer)@ == old(writer)@,
{
    lemma_kinds(e);
}

/// A `stat` answer that is no record is invalid data, for the reason that was given.
pub proof fn law_unreadable_records_are_refused(
    path: &str,
    why: String,
    user: Option<&UserIdentity>,
    meta: Result<FileMetadata, FsError>,
)
    requires
        call_ensures(RemoteFileSystem::metadata_reply, (path, Ok(Err(why)), user), meta),
    ensures
        meta matches Err(FsError::Fault { kind: FaultKind::InvalidData, message }) && message@
            == why@,
{
}

} // verus!
