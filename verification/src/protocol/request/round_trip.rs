//! What holds of reading and writing requests, whatever the request.

use super::id_string::lemma_take_id_string;
use super::open::Open;
use super::read::Read;
use super::rename::Rename;
use super::write::Write;
use super::{decode, decode_payload, is_request_opcode, RequestView};
use crate::error::Error;
use crate::protocol::{lemma_frame_payload_len, lemma_take_frame, take_frame};
use crate::try_buf::{lemma_take_u32, lemma_take_u8};
use vstd::prelude::*;

verus! {

/// The payload of a request that the decoder reads in, read under the
/// request's opcode, is the request.
pub proof fn lemma_decode_payload(request: RequestView)
    requires
        request.fields_fit(),
        request.decodable(),
    ensures
        decode_payload(request.opcode(), request.payload()) == Ok::<RequestView, Error>(request),
{
    let empty = Seq::<u8>::empty();
    assert(request.payload() + empty =~= request.payload());
    match request {
        RequestView::Init { version } => {
            lemma_take_u8(version, empty);
        },
        RequestView::Open { id, path, flags } => {
            Open::lemma_take(id, path, flags, empty);
        },
        RequestView::Close { id, handle } => {
            lemma_take_id_string(id, handle, empty);
        },
        RequestView::Read { id, handle, offset, length } => {
            Read::lemma_take(id, handle, offset, length, empty);
        },
        RequestView::Write { id, handle, offset, data } => {
            Write::lemma_take(id, handle, offset, data, empty);
        },
        RequestView::Lstat { id, path } => {
            lemma_take_id_string(id, path, empty);
        },
        RequestView::Fstat { id, handle } => {
            lemma_take_id_string(id, handle, empty);
        },
        RequestView::Setstat { id } => {
            lemma_take_u32(id, empty);
        },
        RequestView::Fsetstat { .. } => {},
        RequestView::Opendir { id, path } => {
            lemma_take_id_string(id, path, empty);
        },
        RequestView::Readdir { id, handle } => {
            lemma_take_id_string(id, handle, empty);
        },
        RequestView::Remove { id, path } => {
            lemma_take_id_string(id, path, empty);
        },
        RequestView::Mkdir { id, path } => {
            lemma_take_id_string(id, path, empty);
        },
        RequestView::Rmdir { id, path } => {
            lemma_take_id_string(id, path, empty);
        },
        RequestView::Realpath { id, path } => {
            lemma_take_id_string(id, path, empty);
        },
        RequestView::Stat { id, path } => {
            lemma_take_id_string(id, path, empty);
        },
        RequestView::Rename { id, old_path, new_path } => {
            Rename::lemma_take(id, old_path, new_path, empty);
        },
        RequestView::Symlink { id } => {
            lemma_take_u32(id, empty);
        },
        RequestView::Extended { id } => {
            lemma_take_u32(id, empty);
        },
    }
}

/// Writing a request out and reading the bytes back gives the request again:
/// nothing is lost and nothing is added, for every request that the decoder
/// reads in and that can be written out at all.
pub proof fn lemma_decode_encode(request: RequestView)
    requires
        request.encodable(),
        request.decodable(),
    ensures
        decode(request.encode()) == Ok::<RequestView, Error>(request),
{
    lemma_take_frame(request.opcode(), request.payload());
    lemma_decode_payload(request);
}

/// A request to set the attributes of an open file, written out and read
/// back, is refused as unimplemented, whatever its id.
pub proof fn lemma_fsetstat_refused(id: u32)
    ensures
        decode((RequestView::Fsetstat { id }).encode()) == Err::<RequestView, Error>(
            Error::Unimplemented,
        ),
{
    let request = RequestView::Fsetstat { id };
    lemma_take_frame(request.opcode(), request.payload());
    lemma_take_u32(id, Seq::<u8>::empty());
    assert(request.payload() + Seq::<u8>::empty() =~= request.payload());
}

/// The fewest payload bytes that a request under `opcode` can have: its fixed
/// fields, and the length of each string or blob.
pub open spec fn min_payload_len(opcode: u8) -> nat
    recommends
        is_request_opcode(opcode),
{
    if opcode == super::SSH_FXP_INIT {
        1
    } else if opcode == super::SSH_FXP_OPEN || opcode == super::SSH_FXP_RENAME {
        12
    } else if opcode == super::SSH_FXP_READ || opcode == super::SSH_FXP_WRITE {
        20
    } else if opcode == super::SSH_FXP_SETSTAT || opcode == super::SSH_FXP_FSETSTAT || opcode
        == super::SSH_FXP_SYMLINK || opcode == super::SSH_FXP_EXTENDED {
        4
    } else {
        8
    }
}

/// A payload shorter than the least that its opcode needs is a bad message.
pub proof fn lemma_short_payload(opcode: u8, payload: Seq<u8>)
    requires
        is_request_opcode(opcode),
        payload.len() < min_payload_len(opcode),
    ensures
        decode_payload(opcode, payload) == Err::<RequestView, Error>(Error::BadMessage),
{
}

/// Bytes fewer than a frame's length and opcode, or fewer than that and the
/// least payload of the opcode they name, are a bad message.
pub proof fn lemma_short_buffer(bytes: Seq<u8>)
    requires
        bytes.len() < 5 || (is_request_opcode(bytes[4]) && bytes.len() < 5 + min_payload_len(
            bytes[4],
        )),
    ensures
        decode(bytes) == Err::<RequestView, Error>(Error::BadMessage),
{
    if take_frame(bytes).is_some() {
        lemma_frame_payload_len(bytes);
        let (opcode, payload) = take_frame(bytes).unwrap();
        lemma_short_payload(opcode, payload);
    }
}

} // verus!
