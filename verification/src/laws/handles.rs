//! Open remote files.
use vstd::prelude::*;

use crate::error::{FaultKind, FsError};
use crate::json::Json;
use crate::protocol::{Params, Request};
use crate::remote::handles::{
    AppendingRemoteFileWriter, RemoteFileReader, RemoteFileWriter, SeekTo,
};
use crate::remote::RemoteFileSystem;

verus! {

/// A reader starts at the first byte of its data.
pub proof fn law_reader_starts_at_the_first_byte(data: Vec<u8>, reader: RemoteFileReader)
    requires
        call_ensures(RemoteFileReader::new, (data,), reader),
    ensures
        reader@.data == data@,
        reader@.pos == 0,
{
}

/// A read gives the bytes from the position on, as many as there is room for or as
/// are left, moves behind them, and touches nothing else.
pub proof fn law_read_gives_the_next_bytes(
    reader: &mut RemoteFileReader,
    buf: &mut Vec<u8>,
    n: usize,
)
    requires
        call_ensures(RemoteFileReader::read, (reader, buf), n),
    ensures
        ({
            let data = old(reader)@.data;
            let pos = old(reader)@.pos as int;
            let room = old(buf)@.len() as int;
            let left = data.len() - pos;
            &&& left <= 0 ==> n == 0
            &&& 0 < left <= room ==> n == left
            &&& left > room ==> n == room
            &&& final(buf)@.len() == room
            &&& forall|i: int| 0 <= i < n ==> final(buf)@[i] == data[pos + i]
            &&& forall|i: int| n <= i < room ==> final(buf)@[i] == old(buf)@[i]
            &&& final(reader)@.pos == pos + n
            &&& final(reader)@.data == data
        }),
{
    let data = old(reader)@.data;
    let pos = old(reader)@.pos as int;
    let given = old(reader)@.next_bytes(old(buf)@.len());
    let rest = old(buf)@.skip(n as int);
    assert(final(buf)@ == given + rest);
    assert(forall|i: int| 0 <= i < n ==> given[i] == data[pos + i]);
    assert forall|i: int| n <= i < old(buf)@.len() implies final(buf)@[i] == old(buf)@[i] by {
        assert(final(buf)@[i] == rest[i - n]);
    }
}

/// A seek goes to the position that it names, from the start, from the end or from
/// where the reader stands; one that names none fails and does not move.
pub proof fn law_seek_goes_where_it_is_told(
    reader: &mut RemoteFileReader,
    to: SeekTo,
    pos: Result<u64, FsError>,
)
    requires
        call_ensures(RemoteFileReader::seek, (reader, to), pos),
    ensures
        ({
            let target = match to {
                SeekTo::Start(n) => n as int,
                SeekTo::End(d) => old(reader)@.data.len() + d,
                SeekTo::Current(d) => old(reader)@.pos + d,
            };
            &&& final(reader)@.data == old(reader)@.data
            &&& match pos {
                Ok(p) => p == target && final(reader)@.pos == target,
                Err(FsError::Fault { kind, message }) => {
                    &&& target < 0 || target > u64::MAX
                    &&& final(reader)@.pos == old(reader)@.pos
                    &&& kind == FaultKind::InvalidInput
                    &&& message@ == "invalid seek to a negative or overflowing position"@
                },
                Err(FsError::Link(_)) => false,
            }
        }),
{
}

/// Whether `q` asks to replace `path` by `data`.
pub open spec fn asks_to_write(q: Request, path: Seq<char>, data: Seq<u8>) -> bool {
    &&& q.method@ == "write"@
    &&& q.params matches Params::Write { path: p, data: d }
    &&& p@ == path
    &&& d@ == data
}

/// A new writer would make its file empty, however it was opened.
pub proof fn law_new_writer_holds_nothing(
    fs: &RemoteFileSystem,
    path: String,
    same: &str,
    writer: RemoteFileWriter,
    opened: RemoteFileWriter,
    q: Request,
    opened_q: Request,
)
    requires
        call_ensures(RemoteFileWriter::new, (path,), writer),
        call_ensures(RemoteFileWriter::sync_all, (&writer,), q),
        same@ == path@,
        call_ensures(RemoteFileSystem::open_file_for_write, (fs, same), opened),
        call_ensures(RemoteFileWriter::sync_all, (&opened,), opened_q),
    ensures
        asks_to_write(q, path@, Seq::empty()),
        asks_to_write(opened_q, path@, Seq::empty()),
{
}

/// A write takes in all of its data: the next sync writes what the last would have
/// written, and behind it this data. Flushing does not change what is written.
pub proof fn law_written_data_is_synced(
    writer: &mut RemoteFileWriter,
    flushed: &mut RemoteFileWriter,
    data: &[u8],
    n: usize,
    path: Seq<char>,
    held: Seq<u8>,
    before: Request,
    after: Request,
    after_flush: Request,
)
    requires
        call_ensures(RemoteFileWriter::write, (writer, data), n),
        call_ensures(RemoteFileWriter::sync_all, (&*old(writer),), before),
        asks_to_write(before, path, held),
        call_ensures(RemoteFileWriter::sync_all, (&*final(writer),), after),
        *old(flushed) == *final(writer),
        call_ensures(RemoteFileWriter::flush, (flushed,), ()),
        call_ensures(RemoteFileWriter::sync_all, (&*final(flushed),), after_flush),
    ensures
        n == data@.len(),
        asks_to_write(after, path, held + data@),
        asks_to_write(after_flush, path, held + data@),
{
}

/// Whether a sync asks to add `data` to `path`; it asks for nothing where there is
/// nothing to add.
pub open spec fn asks_to_append(q: Option<Request>, path: Seq<char>, data: Seq<u8>) -> bool {
    match q {
        Some(question) => {
            &&& data.len() > 0
            &&& question.method@ == "append"@
            &&& question.params matches Params::Append { path: p, data: d }
            &&& p@ == path
            &&& d@ == data
        },
        None => data.len() == 0,
    }
}

/// A new writer that adds to a file has nothing to add, however it was opened; what
/// is then written to it is what it adds, to its file.
pub proof fn law_new_appender_adds_what_is_written(
    fs: &RemoteFileSystem,
    path: String,
    same: &str,
    made: AppendingRemoteFileWriter,
    opened: AppendingRemoteFileWriter,
    writer: &mut AppendingRemoteFileWriter,
    data: &[u8],
    n: usize,
    q: Option<Request>,
)
    requires
        call_ensures(AppendingRemoteFileWriter::new, (path,), made),
        same@ == path@,
        call_ensures(RemoteFileSystem::open_file_for_append, (fs, same), opened),
        *old(writer) == made || *old(writer) == opened,
        call_ensures(AppendingRemoteFileWriter::write, (writer, data), n),
        call_ensures(AppendingRemoteFileWriter::sync_all, (&*final(writer),), q),
    ensures
        n == data@.len(),
        asks_to_append(q, path@, data@),
{
    assert(Seq::<u8>::empty() + data@ =~= data@);
}

/// A write to it is added behind what is still to be sent. Flushing does not change
/// what is sent.
pub proof fn law_appended_data_is_synced(
    writer: &mut AppendingRemoteFileWriter,
    flushed: &mut AppendingRemoteFileWriter,
    data: &[u8],
    n: usize,
    before: Option<Request>,
    after: Option<Request>,
    after_flush: Option<Request>,
)
    requires
        call_ensures(AppendingRemoteFileWriter::write, (writer, data), n),
        call_ensures(AppendingRemoteFileWriter::sync_all, (&*old(writer),), before),
        call_ensures(AppendingRemoteFileWriter::sync_all, (&*final(writer),), after),
        *old(flushed) == *final(writer),
        call_ensures(AppendingRemoteFileWriter::flush, (flushed,), ()),
        call_ensures(AppendingRemoteFileWriter::sync_all, (&*final(flushed),), after_flush),
    ensures
        n == data@.len(),
        before matches Some(b) ==> b.params matches Params::Append { path, data: held } ==> {
            &&& asks_to_append(after, path@, held@ + data@)
            &&& asks_to_append(after_flush, path@, held@ + data@)
        },
        before is None ==> {
            &&& asks_to_append(after, final(writer)@.path, data@)
            &&& asks_to_append(after_flush, final(writer)@.path, data@)
        },
{
    assert(Seq::<u8>::empty() + data@ =~= data@);
    if before is None {
        assert(old(writer)@.unsent =~= Seq::empty());
    }
}

/// What a sync sent is not sent again: right behind one that went through there is
/// nothing to send.
pub proof fn law_synced_data_is_not_sent_again(
    writer: &mut AppendingRemoteFileWriter,
    answer: Json,
    done: Result<(), FsError>,
    again: Option<Request>,
)
    requires
        call_ensures(AppendingRemoteFileWriter::sync_all_reply, (writer, Ok(answer)), done),
        call_ensures(AppendingRemoteFileWriter::sync_all, (&*final(writer),), again),
    ensures
        done is Ok,
        again is None,
        final(writer)@.path == old(writer)@.path,
{
}

} // verus!
