//! The request to read from an open file.

use crate::error::Error;
use crate::try_buf::{
    contents, fits_u32, lemma_take_string, lemma_take_u32, lemma_take_u64, put_u32, put_u64,
    string_to_wire, take_string, take_u32, take_u64, try_get_string, try_get_u32, try_get_u64,
    try_put_str, u32_to_be, u64_to_be,
};
use bytes::Bytes;
use vstd::prelude::*;
use vstd::utf8::encode_utf8;

verus! {

/// Asks for up to `length` bytes of the file behind `handle`, from `offset` on.
#[derive(Debug, PartialEq)]
pub struct Read {
    pub id: u32,
    pub handle: String,
    pub offset: u64,
    pub length: u32,
}

impl Read {
    /// Reads a `Read` payload: the request id, the handle, the offset, the
    /// length.
    pub open spec fn take(s: Seq<u8>) -> (Option<(u32, Seq<char>, u64, u32)>, Seq<u8>) {
        match take_u32(s) {
            (None, rest) => (None, rest),
            (Some(id), rest) => match take_string(rest) {
                (None, rest) => (None, rest),
                (Some(handle), rest) => match take_u64(rest) {
                    (None, rest) => (None, rest),
                    (Some(offset), rest) => match take_u32(rest) {
                        (None, rest) => (None, rest),
                        (Some(length), rest) => (Some((id, handle, offset, length)), rest),
                    },
                },
            },
        }
    }

    /// A `Read` payload on the wire.
    pub open spec fn to_wire(id: u32, handle: Seq<char>, offset: u64, length: u32) -> Seq<u8> {
        u32_to_be(id) + string_to_wire(handle) + u64_to_be(offset) + u32_to_be(length)
    }

    /// Whether the handle is short enough for the wire.
    pub open spec fn encodable(&self) -> bool {
        fits_u32(encode_utf8(self.handle@).len())
    }

    /// The payload on the wire.
    pub open spec fn wire(&self) -> Seq<u8> {
        Read::to_wire(self.id, self.handle@, self.offset, self.length)
    }

    /// A `Read` payload in front of anything is read back, and the rest is
    /// left.
    pub proof fn lemma_take(id: u32, handle: Seq<char>, offset: u64, length: u32, rest: Seq<u8>)
        requires
            fits_u32(encode_utf8(handle).len()),
        ensures
            Read::take(Read::to_wire(id, handle, offset, length) + rest) == (
                Some((id, handle, offset, length)),
                rest,
            ),
    {
        let tail2 = u32_to_be(length) + rest;
        let tail1 = u64_to_be(offset) + tail2;
        assert(Read::to_wire(id, handle, offset, length) + rest =~= u32_to_be(id) + (
        string_to_wire(handle) + tail1));
        lemma_take_u32(id, string_to_wire(handle) + tail1);
        lemma_take_string(handle, tail1);
        lemma_take_u64(offset, tail2);
        lemma_take_u32(length, rest);
    }

    /// Reads the payload off the front of the buffer.
    pub fn try_from(read_bytes: &mut Bytes) -> (r: Result<Read, Error>)
        ensures
            match r {
                Ok(x) => Read::take(contents(*old(read_bytes))) == (
                    Some((x.id, x.handle@, x.offset, x.length)),
                    contents(*final(read_bytes)),
                ),
                Err(e) => e == Error::BadMessage && Read::take(contents(*old(read_bytes))) == (
                    None::<(u32, Seq<char>, u64, u32)>,
                    contents(*final(read_bytes)),
                ),
            },
    {
        let id = try_get_u32(read_bytes)?;
        let handle = try_get_string(read_bytes)?;
        let offset = try_get_u64(read_bytes)?;
        let length = try_get_u32(read_bytes)?;
        Ok(Read { id, handle, offset, length })
    }

    /// Lays out the payload, unless the handle is too long for the wire.
    pub fn payload(&self) -> (r: Result<Vec<u8>, Error>)
        ensures
            match r {
                Ok(payload) => self.encodable() && payload@ == self.wire(),
                Err(e) => e == Error::Failure && !self.encodable(),
            },
    {
        let mut payload: Vec<u8> = Vec::new();
        put_u32(&mut payload, self.id);
        try_put_str(&mut payload, self.handle.as_str())?;
        put_u64(&mut payload, self.offset);
        put_u32(&mut payload, self.length);
        assert(payload@ =~= self.wire());
        Ok(payload)
    }
}

} // verus!
