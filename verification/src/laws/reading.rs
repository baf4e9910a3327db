//! Reading file contents.
use vstd::prelude::*;

use crate::base64::{encode, law_decode_encode, law_encode_decode};
use crate::error::{ChannelError, FaultKind, FsError};
use crate::json::{array_view, Json, JsonView};
use crate::protocol::{Params, Request, Step};
use crate::remote::handles::RemoteFileReader;
use crate::remote::read::{collected_bytes, lemma_undecodable_stays};
use crate::remote::RemoteFileSystem;
use crate::text::decimal;

verus! {

/// Whether `chunk` carries `piece`: it holds the base64 text of `piece` as its
/// data, or has no data text and `piece` is empty.
pub open spec fn carries(chunk: JsonView, piece: Seq<u8>) -> bool {
    match chunk.str_field("data"@) {
        Some(text) => text == encode(piece),
        None => piece.len() == 0,
    }
}

/// Whether the chunks carry the pieces, one each and in order.
pub open spec fn carry_all(chunks: Seq<Json>, pieces: Seq<Seq<u8>>) -> bool {
    &&& chunks.len() == pieces.len()
    &&& forall|i: int| 0 <= i < chunks.len() ==> carries((#[trigger] chunks[i])@, pieces[i])
}

/// Whether `chunk` has a data text that is the base64 of no bytes at all.
pub open spec fn is_garbled(chunk: JsonView) -> bool {
    chunk.str_field("data"@) matches Some(text) && forall|bytes: Seq<u8>|
        text != #[trigger] encode(bytes)
}

pub proof fn lemma_carried_bytes(chunks: Seq<Json>, pieces: Seq<Seq<u8>>)
    requires
        carry_all(chunks, pieces),
    ensures
        collected_bytes(array_view(chunks)) == Some(pieces.flatten()),
    decreases chunks.len(),
{
    pieces.lemma_flatten_and_flatten_alt_are_equivalent();
    if chunks.len() > 0 {
        let front = chunks.drop_last();
        let less = pieces.drop_last();
        assert(array_view(chunks).drop_last() =~= array_view(front));
        assert forall|i: int| 0 <= i < front.len() implies carries(
            (#[trigger] front[i])@,
            less[i],
        ) by {
            assert(front[i] == chunks[i]);
        }
        lemma_carried_bytes(front, less);
        less.lemma_flatten_and_flatten_alt_are_equivalent();
        let last = chunks[chunks.len() - 1];
        assert(array_view(chunks).last() == last@);
        assert(carries(last@, pieces.last()));
        law_decode_encode(pieces.last());
        assert(pieces.last().len() == 0 ==> less.flatten() + pieces.last() =~= less.flatten());
    } else {
        assert(array_view(chunks) =~= Seq::empty());
    }
}

pub proof fn lemma_garbled_chunks(chunks: Seq<Json>, i: int)
    requires
        0 <= i < chunks.len(),
        is_garbled(chunks[i]@),
    ensures
        collected_bytes(array_view(chunks)) is None,
{
    let all = array_view(chunks);
    assert(all.take(i + 1).last() == chunks[i]@);
    law_encode_decode(chunks[i]@.str_field("data"@)->0);
    lemma_undecodable_stays(all, i + 1);
}

/// A read file is what the agent sent: all pieces, whole, in order, and nothing
/// besides.
pub proof fn law_read_file_gives_what_was_sent(
    chunks: Vec<Json>,
    result: Json,
    pieces: Seq<Seq<u8>>,
    bytes: Result<Vec<u8>, FsError>,
)
    requires
        call_ensures(RemoteFileSystem::read_file_reply, (Ok((chunks, result)),), bytes),
        carry_all(chunks@, pieces),
    ensures
        bytes matches Ok(b) && b@ == pieces.flatten(),
{
    lemma_carried_bytes(chunks@, pieces);
}

/// An answer with a garbled chunk, wherever it stands, gives no file.
pub proof fn law_garbled_file_is_refused(
    chunks: Vec<Json>,
    result: Json,
    i: int,
    bytes: Result<Vec<u8>, FsError>,
)
    requires
        call_ensures(RemoteFileSystem::read_file_reply, (Ok((chunks, result)),), bytes),
        0 <= i < chunks.len(),
        is_garbled(chunks@[i]@),
    ensures
        bytes matches Err(FsError::Fault { kind: FaultKind::InvalidData, .. }),
{
    lemma_garbled_chunks(chunks@, i);
}

/// An opened file holds what the agent sent, and is read from its start.
pub proof fn law_opened_file_holds_what_was_sent(
    chunks: Vec<Json>,
    result: Json,
    pieces: Seq<Seq<u8>>,
    reader: Result<RemoteFileReader, FsError>,
)
    requires
        call_ensures(RemoteFileSystem::open_file_reply, (Ok((chunks, result)),), reader),
        carry_all(chunks@, pieces),
    ensures
        reader matches Ok(r) && r@.data == pieces.flatten() && r@.pos == 0,
{
    lemma_carried_bytes(chunks@, pieces);
}

/// A garbled answer opens nothing.
pub proof fn law_garbled_file_is_not_opened(
    chunks: Vec<Json>,
    result: Json,
    i: int,
    reader: Result<RemoteFileReader, FsError>,
)
    requires
        call_ensures(RemoteFileSystem::open_file_reply, (Ok((chunks, result)),), reader),
        0 <= i < chunks.len(),
        is_garbled(chunks@[i]@),
    ensures
        reader matches Err(FsError::Fault { kind: FaultKind::InvalidData, .. }),
{
    lemma_garbled_chunks(chunks@, i);
}

/// A range read gives the bytes that the agent sent where they are as many as were
/// asked for; more or fewer are an unexpected end of file, which names what was
/// asked for and what came.
pub proof fn law_range_is_what_was_sent_or_short(
    path: &str,
    offset: u64,
    len: usize,
    chunks: Vec<Json>,
    result: Json,
    pieces: Seq<Seq<u8>>,
    bytes: Result<Vec<u8>, FsError>,
)
    requires
        call_ensures(
            RemoteFileSystem::read_range_reply,
            (path, offset, len, Ok((chunks, result))),
            bytes,
        ),
        carry_all(chunks@, pieces),
    ensures
        pieces.flatten().len() == len ==> (bytes matches Ok(b) && b@ == pieces.flatten()),
        pieces.flatten().len() != len ==> {
            let reported = match result@.u64_field("size"@) {
                Some(n) => "Some("@ + decimal((n as usize) as nat) + ")"@,
                None => "None"@,
            };
            &&& bytes matches Err(FsError::Fault { kind: FaultKind::UnexpectedEof, message })
            &&& message@ == "read_range: expected "@ + decimal(len as nat) + " bytes at offset "@
                + decimal(offset as nat) + ", got "@ + decimal(pieces.flatten().len())
                + " (agent reported: "@ + reported + ", path: "@ + path@ + ")"@
        },
{
    lemma_carried_bytes(chunks@, pieces);
}

/// A range read never gives more or fewer bytes than were asked for.
pub proof fn law_range_is_never_short(
    path: &str,
    offset: u64,
    len: usize,
    reply: Result<(Vec<Json>, Json), ChannelError>,
    bytes: Result<Vec<u8>, FsError>,
)
    requires
        call_ensures(RemoteFileSystem::read_range_reply, (path, offset, len, reply), bytes),
    ensures
        bytes matches Ok(b) ==> b@.len() == len,
{
}

/// A garbled answer gives no range, however many bytes were asked for.
pub proof fn law_garbled_range_is_refused(
    path: &str,
    offset: u64,
    len: usize,
    chunks: Vec<Json>,
    result: Json,
    i: int,
    bytes: Result<Vec<u8>, FsError>,
)
    requires
        call_ensures(
            RemoteFileSystem::read_range_reply,
            (path, offset, len, Ok((chunks, result))),
            bytes,
        ),
        0 <= i < chunks.len(),
        is_garbled(chunks@[i]@),
    ensures
        bytes matches Err(FsError::Fault { kind: FaultKind::InvalidData, .. }),
{
    lemma_garbled_chunks(chunks@, i);
}

/// A canonical path is the text that the agent answered, and an answer without one
/// is an error.
pub proof fn law_canonical_path_is_the_answer(answer: Json, canon: Result<String, FsError>)
    requires
        call_ensures(RemoteFileSystem::canonicalize_reply, (Ok(answer),), canon),
    ensures
        match canon {
            Ok(path) => answer@.str_field("path"@) == Some(path@),
            Err(FsError::Fault { kind, message }) => {
                &&& answer@.str_field("path"@) is None
                &&& kind == FaultKind::InvalidData
                &&& message@ == "missing path in response"@
            },
            Err(FsError::Link(_)) => false,
        },
{
}

/// Whether `q` asks for the contents of `path`, or for the range `offset`, `len`.
pub open spec fn asks_for_contents(
    q: Request,
    path: Seq<char>,
    offset: Option<u64>,
    len: Option<usize>,
) -> bool {
    &&& q.method@ == "read"@
    &&& q.params matches Params::Read { path: p, offset: o, len: l }
    &&& p@ == path
    &&& o == offset
    &&& l == len
}

/// A file is read from what was prefetched for it, and over the link exactly where
/// nothing was.
pub proof fn law_file_is_read_from_the_cache_first(
    fs: &RemoteFileSystem,
    path: &str,
    cached: Option<Vec<u8>>,
    step: Step<Vec<u8>>,
)
    requires
        call_ensures(RemoteFileSystem::prewarm_content, (fs, path), cached),
        call_ensures(RemoteFileSystem::read_file, (fs, path), step),
    ensures
        match cached {
            Some(bytes) => step matches Step::Ready(b) && b@ == bytes@,
            None => step matches Step::Ask(q) && asks_for_contents(q, path@, None, None),
        },
{
}

/// A file is opened on what was prefetched for it, at its start, and over the link
/// exactly where nothing was.
pub proof fn law_file_is_opened_from_the_cache_first(
    fs: &RemoteFileSystem,
    path: &str,
    cached: Option<Vec<u8>>,
    step: Step<RemoteFileReader>,
)
    requires
        call_ensures(RemoteFileSystem::prewarm_content, (fs, path), cached),
        call_ensures(RemoteFileSystem::open_file, (fs, path), step),
    ensures
        match cached {
            Some(bytes) => step matches Step::Ready(r) && r@.data == bytes@ && r@.pos == 0,
            None => step matches Step::Ask(q) && asks_for_contents(q, path@, None, None),
        },
{
}

/// A range is cut out of what was prefetched: as many bytes as were asked for, byte
/// `i` of it being byte `offset + i` of the file. A range that runs past the end is
/// an unexpected end of file. Where nothing was prefetched, exactly this range is
/// asked for.
pub proof fn law_range_is_cut_from_the_cache(
    fs: &RemoteFileSystem,
    path: &str,
    offset: u64,
    len: usize,
    cached: Option<Vec<u8>>,
    step: Step<Result<Vec<u8>, FsError>>,
)
    requires
        call_ensures(RemoteFileSystem::prewarm_content, (fs, path), cached),
        call_ensures(RemoteFileSystem::read_range, (fs, path, offset, len), step),
    ensures
        match cached {
            Some(bytes) => if offset + len <= bytes@.len() {
                &&& step matches Step::Ready(Ok(b))
                &&& b@.len() == len
                &&& forall|i: int| 0 <= i < len ==> b@[i] == bytes@[offset + i]
            } else {
                &&& step matches Step::Ready(Err(FsError::Fault { kind, message }))
                &&& kind == FaultKind::UnexpectedEof
                &&& message@ == "read_range: expected "@ + decimal(len as nat)
                    + " bytes at offset "@ + decimal(offset as nat) + ", cached file is "@
                    + decimal(bytes@.len()) + " bytes (path: "@ + path@ + ")"@
            },
            None => step matches Step::Ask(q) && asks_for_contents(
                q,
                path@,
                Some(offset),
                Some(len),
            ),
        },
{
}

} // verus!
