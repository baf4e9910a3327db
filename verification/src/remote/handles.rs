//! Open remote files: a reader over bytes in memory, and writers that collect
//! what is written until it is synced.
use vstd::prelude::*;

use crate::error::{fault, ChannelError, FaultKind, FsError, FsErrorView};
use crate::json::Json;
use crate::protocol::{Params, ParamsView, Request, RequestView, Step};
use crate::remote::ops::{acknowledged, ask_write, unit_result, write_request};
use crate::remote::read::{read_request, replied_contents};
use crate::remote::RemoteFileSystem;

verus! {

/// Where a seek goes.
#[derive(Clone, Copy, Debug, PartialEq, Eq)]
pub enum SeekTo {
    Start(u64),
    End(i64),
    Current(i64),
}

/// A reader over the whole contents of a file.
#[derive(Debug)]
pub struct RemoteFileReader {
    data: Vec<u8>,
    pos: u64,
}

/// The mathematical value of a [`RemoteFileReader`].
#[verifier::ext_equal]
pub struct ReaderView {
    pub data: Seq<u8>,
    pub pos: u64,
}

impl ReaderView {
    /// What a read of at most `room` bytes gives: nothing at or behind the end.
    pub open spec fn next_bytes(self, room: nat) -> Seq<u8> {
        if self.pos >= self.data.len() {
            Seq::empty()
        } else if self.pos + room <= self.data.len() {
            self.data.subrange(self.pos as int, self.pos + room)
        } else {
            self.data.skip(self.pos as int)
        }
    }

    /// The position that a seek asks for.
    pub open spec fn target(self, to: SeekTo) -> int {
        match to {
            SeekTo::Start(n) => n as int,
            SeekTo::End(d) => self.data.len() + d,
            SeekTo::Current(d) => self.pos + d,
        }
    }
}

impl RemoteFileReader {
    pub closed spec fn view(&self) -> ReaderView {
        ReaderView { data: self.data@, pos: self.pos }
    }

    /// A reader at the start of `data`.
    pub fn new(data: Vec<u8>) -> (reader: RemoteFileReader)
        ensures
            reader@ == (ReaderView { data: data@, pos: 0 }),
    {
        RemoteFileReader { data, pos: 0 }
    }

    /// Reads into `buf`, as many bytes as it has room for or as are left, and
    /// says how many.
    pub fn read(&mut self, buf: &mut Vec<u8>) -> (n: usize)
        ensures
            n == old(self)@.next_bytes(old(buf)@.len()).len(),
            final(buf)@ == old(self)@.next_bytes(old(buf)@.len()) + old(buf)@.skip(n as int),
            final(self)@.data == old(self)@.data,
            final(self)@.pos == old(self)@.pos + n,
    {
        let ghost start = self@;
        let ghost room = buf@;
        let total: usize = self.data.len();
        if self.pos >= total as u64 {
            assert(buf@ == start.next_bytes(room.len()) + room.skip(0));
            return 0;
        }
        let at: usize = self.pos as usize;
        let left: usize = total - at;
        let n: usize = if left < buf.len() {
            left
        } else {
            buf.len()
        };
        let mut i: usize = 0;
        while i < n
            invariant
                i <= n,
                n <= buf.len(),
                at + n <= self.data.len(),
                buf.len() == room.len(),
                self@ == start,
                forall|k: int| 0 <= k < i ==> buf@[k] == start.data[at + k],
                forall|k: int| i <= k < room.len() ==> buf@[k] == room[k],
            decreases n - i,
        {
            buf.set(i, self.data[at + i]);
            i += 1;
        }
        self.pos = self.pos + n as u64;
        assert(buf@ == start.next_bytes(room.len()) + room.skip(n as int));
        n
    }

    /// Moves to a position at or behind the start, and gives it. A position
    /// behind the end is allowed. A seek to before the start, or too far, fails
    /// and does not move.
    pub fn seek(&mut self, to: SeekTo) -> (pos: Result<u64, FsError>)
        ensures
            final(self)@.data == old(self)@.data,
            if 0 <= old(self)@.target(to) <= u64::MAX {
                pos matches Ok(p) && p == old(self)@.target(to) && final(self)@.pos == p
            } else {
                &&& pos matches Err(e)
                &&& e@ == (FsErrorView::Fault {
                    kind: FaultKind::InvalidInput,
                    message: "invalid seek to a negative or overflowing position"@,
                })
                &&& final(self)@ == old(self)@
            },
    {
        let target: Option<u64> = match to {
            SeekTo::Start(n) => Some(n),
            SeekTo::End(d) => (self.data.len() as u64).checked_add_signed(d),
            SeekTo::Current(d) => self.pos.checked_add_signed(d),
        };
        match target {
            Some(p) => {
                self.pos = p;
                Ok(p)
            },
            None => Err(
                fault(
                    FaultKind::InvalidInput,
                    "invalid seek to a negative or overflowing position",
                ),
            ),
        }
    }
}

/// A writer that replaces a file: syncing sends everything written so far.
#[derive(Debug)]
pub struct RemoteFileWriter {
    path: String,
    buffer: Vec<u8>,
}

/// A writer that adds to a file: syncing sends only what is new.
#[derive(Debug)]
pub struct AppendingRemoteFileWriter {
    path: String,
    /// What was written since the last sync that went through.
    buffer: Vec<u8>,
}

/// The mathematical value of a [`RemoteFileWriter`].
#[verifier::ext_equal]
pub struct WriterView {
    pub path: Seq<char>,
    pub buffer: Seq<u8>,
}

impl WriterView {
    /// The writer after `data` was written.
    pub open spec fn written(self, data: Seq<u8>) -> WriterView {
        WriterView { buffer: self.buffer + data, ..self }
    }
}

impl RemoteFileWriter {
    pub closed spec fn view(&self) -> WriterView {
        WriterView { path: self.path@, buffer: self.buffer@ }
    }

    /// A writer for `path` with nothing written.
    pub fn new(path: String) -> (writer: RemoteFileWriter)
        ensures
            writer@ == (WriterView { path: path@, buffer: Seq::empty() }),
    {
        RemoteFileWriter { path, buffer: Vec::new() }
    }

    /// Takes in all of `data`.
    pub fn write(&mut self, data: &[u8]) -> (n: usize)
        ensures
            n == data@.len(),
            final(self)@ == old(self)@.written(data@),
    {
        self.buffer.extend_from_slice(data);
        assert(self.buffer@ =~= old(self).buffer@ + data@);
        data.len()
    }

    /// Does nothing: what is written goes out when it is synced.
    pub fn flush(&mut self)
        ensures
            final(self)@ == old(self)@,
    {
    }

    /// Asks to replace the file by everything written so far.
    pub fn sync_all(&self) -> (question: Request)
        ensures
            question@ == write_request(self@.path, self@.buffer),
    {
        ask_write(self.path.as_str(), self.buffer.as_slice())
    }
}

/// The request that adds `data` at the end of `path`.
pub open spec fn append_request(path: Seq<char>, data: Seq<u8>) -> RequestView {
    RequestView { method: "append"@, params: ParamsView::Append { path, data } }
}

/// The mathematical value of an [`AppendingRemoteFileWriter`]: what was written and
/// has not been sent.
#[verifier::ext_equal]
pub struct AppenderView {
    pub path: Seq<char>,
    pub unsent: Seq<u8>,
}

impl AppenderView {
    /// The writer after `data` was written.
    pub open spec fn written(self, data: Seq<u8>) -> AppenderView {
        AppenderView { unsent: self.unsent + data, ..self }
    }

    /// The writer after a sync. What went through is not sent again; where it did
    /// not, all of it is still to be sent.
    pub open spec fn synced(self, went_through: bool) -> AppenderView {
        if went_through {
            AppenderView { unsent: Seq::empty(), ..self }
        } else {
            self
        }
    }
}

impl AppendingRemoteFileWriter {
    pub closed spec fn view(&self) -> AppenderView {
        AppenderView { path: self.path@, unsent: self.buffer@ }
    }

    /// A writer that adds to `path`, with nothing written.
    pub fn new(path: String) -> (writer: AppendingRemoteFileWriter)
        ensures
            writer@ == (AppenderView { path: path@, unsent: Seq::empty() }),
    {
        AppendingRemoteFileWriter { path, buffer: Vec::new() }
    }

    /// Takes in all of `data`.
    pub fn write(&mut self, data: &[u8]) -> (n: usize)
        ensures
            n == data@.len(),
            final(self)@ == old(self)@.written(data@),
    {
        self.buffer.extend_from_slice(data);
        assert(self.buffer@ =~= old(self).buffer@ + data@);
        data.len()
    }

    /// Does nothing: what is written goes out when it is synced.
    pub fn flush(&mut self)
        ensures
            final(self)@ == old(self)@,
    {
    }

    /// Asks to add what has not been sent; nothing to ask where all has.
    pub fn sync_all(&self) -> (question: Option<Request>)
        ensures
            if self@.unsent.len() == 0 {
                question is None
            } else {
                question matches Some(q) && q@ == append_request(self@.path, self@.unsent)
            },
    {
        if self.buffer.is_empty() {
            return None;
        }
        Some(
            Request {
                method: "append",
                params: Params::Append {
                    path: self.path.clone(),
                    data: vstd::slice::slice_to_vec(self.buffer.as_slice()),
                },
            },
        )
    }

    /// Takes in the answer to that question. What the agent added counts as sent;
    /// after a failure all of it is still to be sent.
    pub fn sync_all_reply(&mut self, reply: Result<Json, ChannelError>) -> (done: Result<
        (),
        FsError,
    >)
        ensures
            unit_result(done) == acknowledged(reply),
            final(self)@ == old(self)@.synced(reply is Ok),
            reply is Ok ==> final(self)@.unsent.len() == 0,
            reply is Err ==> final(self)@ == old(self)@,
    {
        match RemoteFileSystem::acknowledge(reply) {
            Ok(_) => {
                self.buffer = Vec::new();
                Ok(())
            },
            Err(e) => Err(e),
        }
    }
}

impl RemoteFileSystem {
    /// Asks to make `path` an empty file.
    pub fn create_file(&self, path: &str) -> (question: Request)
        ensures
            question@ == write_request(path@, Seq::empty()),
    {
        let nothing: Vec<u8> = Vec::new();
        ask_write(path, nothing.as_slice())
    }

    /// A writer for the file just made, where the agent made it.
    pub fn create_file_reply(path: &str, reply: Result<Json, ChannelError>) -> (writer: Result<
        RemoteFileWriter,
        FsError,
    >)
        ensures
            match writer {
                Ok(w) => acknowledged(reply) is Ok && w@ == (WriterView {
                    path: path@,
                    buffer: Seq::empty(),
                }),
                Err(e) => acknowledged(reply) == Err::<(), FsErrorView>(e@),
            },
    {
        match Self::acknowledge(reply) {
            Ok(_) => Ok(RemoteFileWriter::new(path.to_owned())),
            Err(e) => Err(e),
        }
    }

    /// A reader over the contents of `path`: prefetched, or to be asked for.
    pub fn open_file(&self, path: &str) -> (step: Step<RemoteFileReader>)
        ensures
            match self@.prewarm.content_of(path@) {
                Some(bytes) => step matches Step::Ready(r) && r@ == (ReaderView {
                    data: bytes,
                    pos: 0,
                }),
                None => step matches Step::Ask(q) && q@ == read_request(path@, None, None),
            },
    {
        match self.read_file(path) {
            Step::Ready(bytes) => Step::Ready(RemoteFileReader::new(bytes)),
            Step::Ask(question) => Step::Ask(question),
        }
    }

    /// A reader over the contents of a file, from the chunks of the answer.
    pub fn open_file_reply(reply: Result<(Vec<Json>, Json), ChannelError>) -> (reader: Result<
        RemoteFileReader,
        FsError,
    >)
        ensures
            match reader {
                Ok(r) => replied_contents(reply) == Ok::<Seq<u8>, FsErrorView>(r@.data) && r@.pos
                    == 0,
                Err(e) => replied_contents(reply) == Err::<Seq<u8>, FsErrorView>(e@),
            },
    {
        match Self::read_file_reply(reply) {
            Ok(bytes) => Ok(RemoteFileReader::new(bytes)),
            Err(e) => Err(e),
        }
    }

    /// A writer that replaces `path` when it is synced.
    pub fn open_file_for_write(&self, path: &str) -> (writer: RemoteFileWriter)
        ensures
            writer@ == (WriterView { path: path@, buffer: Seq::empty() }),
    {
        RemoteFileWriter::new(path.to_owned())
    }

    /// A writer that adds to `path` when it is synced.
    pub fn open_file_for_append(&self, path: &str) -> (writer: AppendingRemoteFileWriter)
        ensures
            writer@ == (AppenderView { path: path@, unsent: Seq::empty() }),
    {
        AppendingRemoteFileWriter::new(path.to_owned())
    }
}

/// Two writes in a row are one write of both: what is synced does not depend on
/// how the data was cut up.
pub proof fn law_writes_join(writer: WriterView, first: Seq<u8>, second: Seq<u8>)
    ensures
        writer.written(first).written(second) == writer.written(first + second),
{
    assert(writer.written(first).written(second) =~= writer.written(first + second));
}

/// What happens to a writer that adds to a file: something is written, or it is
/// synced and that goes through or not.
pub enum AppenderEvent {
    Write(Seq<u8>),
    Sync(bool),
}

impl AppenderView {
    /// The writer after `events`.
    pub open spec fn after(self, events: Seq<AppenderEvent>) -> AppenderView
        decreases events.len(),
    {
        if events.len() == 0 {
            self
        } else {
            let before = self.after(events.drop_last());
            match events.last() {
                AppenderEvent::Write(data) => before.written(data),
                AppenderEvent::Sync(went_through) => before.synced(went_through),
            }
        }
    }

    /// The bytes that reach the file during `events`.
    pub open spec fn sent(self, events: Seq<AppenderEvent>) -> Seq<u8>
        decreases events.len(),
    {
        if events.len() == 0 {
            Seq::empty()
        } else {
            let front = events.drop_last();
            match events.last() {
                AppenderEvent::Sync(true) => self.sent(front) + self.after(front).unsent,
                _ => self.sent(front),
            }
        }
    }
}

/// The bytes that are written during `events`.
pub open spec fn written_during(events: Seq<AppenderEvent>) -> Seq<u8>
    decreases events.len(),
{
    if events.len() == 0 {
        Seq::empty()
    } else {
        let before = written_during(events.drop_last());
        match events.last() {
            AppenderEvent::Write(data) => before + data,
            AppenderEvent::Sync(_) => before,
        }
    }
}

/// A writer that adds to a file sends every byte once and in order, however often
/// it is synced and whichever syncs fail: what has reached the file and what is
/// still to be sent are together what was written.
pub proof fn law_each_byte_is_appended_once(writer: AppenderView, events: Seq<AppenderEvent>)
    ensures
        writer.sent(events) + writer.after(events).unsent == writer.unsent + written_during(events),
        writer.after(events).path == writer.path,
    decreases events.len(),
{
    if events.len() == 0 {
        assert(writer.sent(events) + writer.after(events).unsent =~= writer.unsent
            + written_during(events));
    } else {
        let front = events.drop_last();
        law_each_byte_is_appended_once(writer, front);
        assert(writer.sent(events) + writer.after(events).unsent =~= writer.unsent
            + written_during(events)) by {
            let before = writer.after(front).unsent;
            match events.last() {
                AppenderEvent::Write(data) => {
                    assert(writer.sent(front) + (before + data) =~= (writer.sent(front) + before)
                        + data);
                },
                AppenderEvent::Sync(_) => {},
            }
        }
    }
}

/// Reading on and on gives the file: what a read of `a` bytes and then of `b`
/// bytes gives is what a read of `a + b` bytes gives.
pub proof fn law_reads_join(reader: ReaderView, a: nat, b: nat)
    requires
        reader.data.len() <= u64::MAX,
    ensures
        ({
            let first = reader.next_bytes(a);
            let after = ReaderView {
                data: reader.data,
                pos: (reader.pos + first.len()) as u64,
            };
            first + after.next_bytes(b) == reader.next_bytes(a + b)
        }),
{
    let first = reader.next_bytes(a);
    let after = ReaderView { data: reader.data, pos: (reader.pos + first.len()) as u64 };
    assert(first + after.next_bytes(b) =~= reader.next_bytes(a + b));
}

} // verus!
