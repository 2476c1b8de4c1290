//! The messages of the protocol: requests from the client, responses to it.
//!
//! Every message travels in a frame: a 32-bit length, then that many bytes, of
//! which the first is the opcode and the rest the payload.

pub mod request;
pub mod response;

use crate::error::Error;
use crate::try_buf::{
    bytes_copy_from_slice, contents, fits_u32, lemma_take_u32, lemma_take_u8, put_u32, put_u8,
    take_bytes, take_u32, take_u8, try_get_bytes, try_get_u32, try_get_u8, u32_to_be,
};
use bytes::Bytes;
use vstd::prelude::*;

verus! {

/// Whether a payload is short enough to be framed: its length and the opcode's
/// one byte must fit the 32-bit length.
pub open spec fn frameable(payload: Seq<u8>) -> bool {
    fits_u32(payload.len() + 1)
}

/// A message on the wire: the length of what follows, the opcode, the payload.
pub open spec fn frame(opcode: u8, payload: Seq<u8>) -> Seq<u8>
    recommends
        frameable(payload),
{
    u32_to_be((payload.len() + 1) as u32) + seq![opcode] + payload
}

/// Takes a frame apart: its opcode and its payload, if the bytes hold a whole
/// frame. Bytes after the frame are ignored. A frame of length zero has no
/// opcode and is no frame.
pub open spec fn take_frame(s: Seq<u8>) -> Option<(u8, Seq<u8>)> {
    match take_u32(s) {
        (None, _) => None,
        (Some(len), rest) => match take_u8(rest) {
            (None, _) => None,
            (Some(opcode), rest) => if len == 0 {
                None
            } else {
                match take_bytes(rest, (len - 1) as nat) {
                    (None, _) => None,
                    (Some(payload), _) => Some((opcode, payload)),
                }
            },
        },
    }
}

/// A frame taken apart gives back its opcode and payload.
pub proof fn lemma_take_frame(opcode: u8, payload: Seq<u8>)
    requires
        frameable(payload),
    ensures
        take_frame(frame(opcode, payload)) == Some((opcode, payload)),
{
    let len = (payload.len() + 1) as u32;
    assert(frame(opcode, payload) =~= u32_to_be(len) + (seq![opcode] + payload));
    lemma_take_u32(len, seq![opcode] + payload);
    lemma_take_u8(opcode, payload);
    assert(payload.take(payload.len() as int) =~= payload);
}

/// A frame has at least its length and its opcode, which is the fifth byte,
/// and its payload is never longer than what follows the two.
pub proof fn lemma_frame_payload_len(s: Seq<u8>)
    requires
        take_frame(s).is_some(),
    ensures
        s.len() >= 5,
        take_frame(s).unwrap().0 == s[4],
        take_frame(s).unwrap().1.len() <= s.len() - 5,
{
}

/// Puts a payload in a frame, unless it is too long.
pub fn frame_message(opcode: u8, payload: &[u8]) -> (r: Result<Vec<u8>, Error>)
    ensures
        match r {
            Ok(message) => frameable(payload@) && message@ == frame(opcode, payload@),
            Err(e) => e == Error::Failure && !frameable(payload@),
        },
{
    if payload.len() >= u32::MAX as usize {
        return Err(Error::Failure);
    }
    let mut message: Vec<u8> = Vec::new();
    put_u32(&mut message, (payload.len() + 1) as u32);
    put_u8(&mut message, opcode);
    crate::try_buf::put_slice(&mut message, payload);
    Ok(message)
}

/// Takes a frame apart, or reports a bad message where the bytes hold none.
pub fn split_frame(bytes: &[u8]) -> (r: Result<(u8, Bytes), Error>)
    ensures
        match r {
            Ok((opcode, payload)) => take_frame(bytes@) == Some((opcode, contents(payload))),
            Err(e) => e == Error::BadMessage && take_frame(bytes@).is_none(),
        },
{
    let mut buf = bytes_copy_from_slice(bytes);
    let data_length = try_get_u32(&mut buf)?;
    let data_type = try_get_u8(&mut buf)?;
    if data_length == 0 {
        return Err(Error::BadMessage);
    }
    let data_payload = try_get_bytes(&mut buf, data_length - 1)?;
    Ok((data_type, data_payload))
}

} // verus!
