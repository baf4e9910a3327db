//! Reading file contents and canonical paths: from what was prefetched, or over
//! the link.
use vstd::prelude::*;

use crate::base64::{decode, decode_base64, encode, law_decode_encode};
use crate::error::{fault, io_error_of, ChannelError, FaultKind, FsError, FsErrorView};
use crate::json::{array_view, Json, JsonView};
use crate::protocol::{Params, ParamsView, Request, RequestView, Step};
use crate::remote::info::text_result;
use crate::remote::ops::{ask_path, path_request};
use crate::remote::RemoteFileSystem;
use crate::text::{decimal, push_decimal};

verus! {

/// The question for the contents of `path`, or for a range of them.
pub open spec fn read_request(
    path: Seq<char>,
    offset: Option<u64>,
    len: Option<usize>,
) -> RequestView {
    RequestView { method: "read"@, params: ParamsView::Read { path, offset, len } }
}

/// The question for the canonical form of `path`.
pub open spec fn realpath_request(path: Seq<char>) -> RequestView {
    path_request("realpath"@, path)
}

/// What a chunk of a `read` answer carries: nothing where it has no data text,
/// else the decoded bytes, or nothing inside where the text cannot be decoded.
pub open spec fn chunk_bytes(chunk: JsonView) -> Option<Option<Seq<u8>>> {
    match chunk.str_field("data"@) {
        Some(text) => Some(decode(text)),
        None => None,
    }
}

/// The bytes of all chunks, one after another; nothing where any data text
/// cannot be decoded.
pub open spec fn collected_bytes(chunks: Seq<JsonView>) -> Option<Seq<u8>>
    decreases chunks.len(),
{
    if chunks.len() == 0 {
        Some(Seq::empty())
    } else {
        match (collected_bytes(chunks.drop_last()), chunk_bytes(chunks.last())) {
            (Some(before), None) => Some(before),
            (Some(before), Some(Some(bytes))) => Some(before + bytes),
            _ => None,
        }
    }
}

pub open spec fn bad_data() -> FsErrorView {
    FsErrorView::Fault { kind: FaultKind::InvalidData, message: "invalid base64 data"@ }
}

/// The value of a byte result.
pub open spec fn bytes_result(r: Result<Vec<u8>, FsError>) -> Result<Seq<u8>, FsErrorView> {
    match r {
        Ok(b) => Ok(b@),
        Err(e) => Err(e@),
    }
}

/// The contents that a `read` answer gives.
pub open spec fn replied_contents(reply: Result<(Vec<Json>, Json), ChannelError>) -> Result<
    Seq<u8>,
    FsErrorView,
> {
    match reply {
        Ok((chunks, _)) => match collected_bytes(array_view(chunks@)) {
            Some(bytes) => Ok(bytes),
            None => Err(bad_data()),
        },
        Err(e) => Err(io_error_of(e@)),
    }
}

/// `len` bytes of `content` from `offset` on. A range that runs past the end is
/// an error, not a shorter read.
pub open spec fn cached_range(
    content: Seq<u8>,
    path: Seq<char>,
    offset: u64,
    len: usize,
) -> Result<Seq<u8>, FsErrorView> {
    if offset + len <= content.len() {
        Ok(content.subrange(offset as int, offset + len))
    } else {
        Err(
            FsErrorView::Fault {
                kind: FaultKind::UnexpectedEof,
                message: "read_range: expected "@ + decimal(len as nat) + " bytes at offset "@
                    + decimal(offset as nat) + ", cached file is "@ + decimal(content.len())
                    + " bytes (path: "@ + path + ")"@,
            },
        )
    }
}

/// How an optional size is written into a message.
pub open spec fn size_text(size: Option<u64>) -> Seq<char> {
    match size {
        Some(n) => "Some("@ + decimal((n as usize) as nat) + ")"@,
        None => "None"@,
    }
}

/// What the answer to a range read gives: exactly `len` bytes, or an error.
pub open spec fn replied_range(
    path: Seq<char>,
    offset: u64,
    len: usize,
    reply: Result<(Vec<Json>, Json), ChannelError>,
) -> Result<Seq<u8>, FsErrorView> {
    match reply {
        Ok((chunks, result)) => match collected_bytes(array_view(chunks@)) {
            Some(bytes) => if bytes.len() == len {
                Ok(bytes)
            } else {
                Err(
                    FsErrorView::Fault {
                        kind: FaultKind::UnexpectedEof,
                        message: "read_range: expected "@ + decimal(len as nat)
                            + " bytes at offset "@ + decimal(offset as nat) + ", got "@ + decimal(
                            bytes.len(),
                        ) + " (agent reported: "@ + size_text(result@.u64_field("size"@))
                            + ", path: "@ + path + ")"@,
                    },
                )
            },
            None => Err(bad_data()),
        },
        Err(e) => Err(io_error_of(e@)),
    }
}

/// The canonical path that a `realpath` answer gives.
pub open spec fn replied_canonical(reply: Result<Json, ChannelError>) -> Result<
    Seq<char>,
    FsErrorView,
> {
    match reply {
        Ok(answer) => match answer@.str_field("path"@) {
            Some(path) => Ok(path),
            None => Err(
                FsErrorView::Fault {
                    kind: FaultKind::InvalidData,
                    message: "missing path in response"@,
                },
            ),
        },
        Err(e) => Err(io_error_of(e@)),
    }
}

/// Asks for the contents of `path`, or for a range of them.
pub(crate) fn ask_read(path: &str, offset: Option<u64>, len: Option<usize>) -> (question: Request)
    ensures
        question@ == read_request(path@, offset, len),
{
    Request { method: "read", params: Params::Read { path: path.to_owned(), offset, len } }
}

/// Asks for the canonical form of `path`.
pub(crate) fn ask_canonical(path: &str) -> (question: Request)
    ensures
        question@ == realpath_request(path@),
{
    ask_path("realpath", path)
}

/// The bytes of all chunks, one after another; nothing where any data text
/// cannot be decoded.
fn collect_chunks(chunks: &Vec<Json>) -> (bytes: Option<Vec<u8>>)
    ensures
        match bytes {
            Some(b) => collected_bytes(array_view(chunks@)) == Some(b@),
            None => collected_bytes(array_view(chunks@)) is None,
        },
{
    let ghost all = array_view(chunks@);
    let mut bytes: Vec<u8> = Vec::new();
    let mut i: usize = 0;
    while i < chunks.len()
        invariant
            i <= chunks.len(),
            all == array_view(chunks@),
            collected_bytes(all.take(i as int)) == Some(bytes@),
        decreases chunks.len() - i,
    {
        let ghost next = all.take(i + 1);
        assert(next.drop_last() == all.take(i as int));
        assert(next.last() == chunks@[i as int]@);
        if let Some(text) = chunks[i].str_field("data") {
            match decode_base64(text) {
                Some(decoded) => {
                    let mut decoded = decoded;
                    bytes.append(&mut decoded);
                },
                None => {
                    proof {
                        lemma_undecodable_stays(all, i + 1);
                    }
                    return None;
                },
            }
        }
        i += 1;
    }
    assert(all.take(i as int) == all);
    Some(bytes)
}

pub proof fn lemma_undecodable_stays(chunks: Seq<JsonView>, n: int)
    requires
        0 <= n <= chunks.len(),
        collected_bytes(chunks.take(n)) is None,
    ensures
        collected_bytes(chunks) is None,
    decreases chunks.len() - n,
{
    if n == chunks.len() {
        assert(chunks.take(n) == chunks);
    } else {
        assert(chunks.take(n + 1).drop_last() == chunks.take(n));
        lemma_undecodable_stays(chunks, n + 1);
    }
}

fn short_cached_read(len: usize, offset: u64, have: usize, path: &str) -> (e: FsError)
    ensures
        e@ == (FsErrorView::Fault {
            kind: FaultKind::UnexpectedEof,
            message: "read_range: expected "@ + decimal(len as nat) + " bytes at offset "@
                + decimal(offset as nat) + ", cached file is "@ + decimal(have as nat)
                + " bytes (path: "@ + path@ + ")"@,
        }),
{
    let mut message = "read_range: expected ".to_owned();
    push_decimal(&mut message, len as u128);
    message.append(" bytes at offset ");
    push_decimal(&mut message, offset as u128);
    message.append(", cached file is ");
    push_decimal(&mut message, have as u128);
    message.append(" bytes (path: ");
    message.append(path);
    message.append(")");
    FsError::Fault { kind: FaultKind::UnexpectedEof, message }
}

fn short_live_read(
    len: usize,
    offset: u64,
    have: usize,
    reported: Option<u64>,
    path: &str,
) -> (e: FsError)
    ensures
        e@ == (FsErrorView::Fault {
            kind: FaultKind::UnexpectedEof,
            message: "read_range: expected "@ + decimal(len as nat) + " bytes at offset "@
                + decimal(offset as nat) + ", got "@ + decimal(have as nat) + " (agent reported: "@
                + size_text(reported) + ", path: "@ + path@ + ")"@,
        }),
{
    let mut message = "read_range: expected ".to_owned();
    push_decimal(&mut message, len as u128);
    message.append(" bytes at offset ");
    push_decimal(&mut message, offset as u128);
    message.append(", got ");
    push_decimal(&mut message, have as u128);
    message.append(" (agent reported: ");
    let mut size = "None".to_owned();
    if let Some(n) = reported {
        size = "Some(".to_owned();
        push_decimal(&mut size, (n as usize) as u128);
        size.append(")");
    }
    message.append(size.as_str());
    message.append(", path: ");
    message.append(path);
    message.append(")");
    FsError::Fault { kind: FaultKind::UnexpectedEof, message }
}

impl RemoteFileSystem {
    /// The contents of `path`: prefetched, or to be asked for.
    pub fn read_file(&self, path: &str) -> (step: Step<Vec<u8>>)
        ensures
            match self@.prewarm.content_of(path@) {
                Some(bytes) => step matches Step::Ready(b) && b@ == bytes,
                None => step matches Step::Ask(q) && q@ == read_request(path@, None, None),
            },
    {
        match self.prewarm_content(path) {
            Some(bytes) => Step::Ready(bytes),
            None => Step::Ask(ask_read(path, None, None)),
        }
    }

    /// The contents of a file, from the chunks of the answer.
    pub fn read_file_reply(reply: Result<(Vec<Json>, Json), ChannelError>) -> (bytes: Result<
        Vec<u8>,
        FsError,
    >)
        ensures
            bytes_result(bytes) == replied_contents(reply),
    {
        match reply {
            Ok((chunks, _)) => match collect_chunks(&chunks) {
                Some(bytes) => Ok(bytes),
                None => Err(fault(FaultKind::InvalidData, "invalid base64 data")),
            },
            Err(e) => Err(Self::to_io_error(e)),
        }
    }

    /// `len` bytes of `path` from `offset` on: cut out of what was prefetched, or
    /// to be asked for.
    pub fn read_range(&self, path: &str, offset: u64, len: usize) -> (step: Step<
        Result<Vec<u8>, FsError>,
    >)
        ensures
            match self@.prewarm.content_of(path@) {
                Some(bytes) => step matches Step::Ready(r) && bytes_result(r) == cached_range(
                    bytes,
                    path@,
                    offset,
                    len,
                ),
                None => step matches Step::Ask(q) && q@ == read_request(
                    path@,
                    Some(offset),
                    Some(len),
                ),
            },
    {
        match self.prewarm_content(path) {
            Some(content) => {
                let size: usize = content.len();
                if offset <= size as u64 && len <= size - offset as usize {
                    let start: usize = offset as usize;
                    let range = vstd::slice::slice_subrange(content.as_slice(), start, start + len);
                    Step::Ready(Ok(vstd::slice::slice_to_vec(range)))
                } else {
                    Step::Ready(Err(short_cached_read(len, offset, content.len(), path)))
                }
            },
            None => Step::Ask(ask_read(path, Some(offset), Some(len))),
        }
    }

    /// `len` bytes of `path` from `offset` on, from the chunks of the answer.
    pub fn read_range_reply(
        path: &str,
        offset: u64,
        len: usize,
        reply: Result<(Vec<Json>, Json), ChannelError>,
    ) -> (bytes: Result<Vec<u8>, FsError>)
        ensures
            bytes_result(bytes) == replied_range(path@, offset, len, reply),
    {
        match reply {
            Ok((chunks, result)) => match collect_chunks(&chunks) {
                Some(bytes) => {
                    if bytes.len() == len {
                        Ok(bytes)
                    } else {
                        Err(
                            short_live_read(
                                len,
                                offset,
                                bytes.len(),
                                result.u64_field("size"),
                                path,
                            ),
                        )
                    }
                },
                None => Err(fault(FaultKind::InvalidData, "invalid base64 data")),
            },
            Err(e) => Err(Self::to_io_error(e)),
        }
    }

    /// The canonical form of `path`: prefetched, or to be asked for.
    pub fn canonicalize(&self, path: &str) -> (step: Step<String>)
        ensures
            match self@.prewarm.canon_of(path@) {
                Some(canon) => step matches Step::Ready(c) && c@ == canon,
                None => step matches Step::Ask(q) && q@ == realpath_request(path@),
            },
    {
        match self.prewarm_canon(path) {
            Some(canon) => Step::Ready(canon),
            None => Step::Ask(ask_canonical(path)),
        }
    }

    /// The canonical form of a path, from the answer.
    pub fn canonicalize_reply(reply: Result<Json, ChannelError>) -> (canon: Result<String, FsError>)
        ensures
            text_result(canon) == replied_canonical(reply),
    {
        match reply {
            Ok(answer) => match answer.str_field("path") {
                Some(path) => Ok(path.to_owned()),
                None => Err(fault(FaultKind::InvalidData, "missing path in response")),
            },
            Err(e) => Err(Self::to_io_error(e)),
        }
    }
}

/// What was sent is what is read: an agent that answers with the bytes of a file
/// in pieces, each in base64, gives the file back, whole and in order.
pub proof fn law_sent_bytes_are_read_back(chunks: Seq<JsonView>, pieces: Seq<Seq<u8>>)
    requires
        chunks.len() == pieces.len(),
        forall|i: int|
            0 <= i < chunks.len() ==> (#[trigger] chunks[i]).str_field("data"@) == Some(
                encode(pieces[i]),
            ),
    ensures
        collected_bytes(chunks) == Some(pieces.flatten()),
    decreases chunks.len(),
{
    pieces.lemma_flatten_and_flatten_alt_are_equivalent();
    if chunks.len() > 0 {
        let front = chunks.drop_last();
        assert forall|i: int| 0 <= i < front.len() implies (#[trigger] front[i]).str_field("data"@)
            == Some(encode(pieces.drop_last()[i])) by {
            assert(front[i] == chunks[i]);
        }
        law_sent_bytes_are_read_back(front, pieces.drop_last());
        pieces.drop_last().lemma_flatten_and_flatten_alt_are_equivalent();
        assert(chunks.last() == chunks[chunks.len() - 1]);
        law_decode_encode(pieces.last());
    }
}

/// Reading all of a prefetched file as a range gives the file.
pub proof fn law_whole_range_is_the_file(content: Seq<u8>, path: Seq<char>)
    requires
        content.len() <= usize::MAX,
    ensures
        cached_range(content, path, 0, content.len() as usize) == Ok::<Seq<u8>, FsErrorView>(
            content,
        ),
{
    assert(content.subrange(0, content.len() as int) == content);
}

/// Two ranges that meet are one range: reading them one after the other gives
/// what reading both at once gives.
pub proof fn law_ranges_join(
    content: Seq<u8>,
    path: Seq<char>,
    offset: u64,
    first: usize,
    second: usize,
)
    requires
        offset + first + second <= content.len() <= usize::MAX,
        offset + first <= u64::MAX,
    ensures
        cached_range(content, path, offset, first) is Ok,
        cached_range(content, path, (offset + first) as u64, second) is Ok,
        cached_range(content, path, offset, (first + second) as usize) == Ok::<
            Seq<u8>,
            FsErrorView,
        >(
            cached_range(content, path, offset, first)->Ok_0 + cached_range(
                content,
                path,
                (offset + first) as u64,
                second,
            )->Ok_0,
        ),
{
    let o = offset as int;
    assert(content.subrange(o, o + first) + content.subrange(o + first, o + first + second)
        =~= content.subrange(o, o + first + second));
}

/// The bytes of `content` that lie in a range, as many as there are.
pub open spec fn bytes_in_range(content: Seq<u8>, offset: u64, len: usize) -> Seq<u8> {
    if offset >= content.len() {
        Seq::empty()
    } else if offset + len <= content.len() {
        content.subrange(offset as int, offset + len)
    } else {
        content.skip(offset as int)
    }
}

/// A range read is answered alike from the cache and over the link: where the
/// agent sends the bytes that the file has in the range, both give them if they
/// are all there, and both fail with an unexpected end of file if not.
pub proof fn law_cached_range_agrees_with_live(
    content: Seq<u8>,
    path: Seq<char>,
    offset: u64,
    len: usize,
    chunks: Vec<Json>,
    result: Json,
)
    requires
        len > 0 || offset <= content.len(),
        collected_bytes(array_view(chunks@)) == Some(bytes_in_range(content, offset, len)),
    ensures
        match replied_range(path, offset, len, Ok((chunks, result))) {
            Ok(bytes) => cached_range(content, path, offset, len) == Ok::<Seq<u8>, FsErrorView>(
                bytes,
            ),
            Err(e) => {
                &&& e matches FsErrorView::Fault { kind, .. }
                &&& kind == FaultKind::UnexpectedEof
                &&& cached_range(content, path, offset, len) matches Err(FsErrorView::Fault {
                    kind: cached,
                    ..
                })
                &&& cached == FaultKind::UnexpectedEof
            },
        },
{
    if len == 0 {
        let at = offset as int;
        assert(content.subrange(at, at) =~= bytes_in_range(content, offset, len));
    }
}

} // verus!
