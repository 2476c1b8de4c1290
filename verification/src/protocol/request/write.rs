//! The request to write to an open file.

use crate::error::Error;
use crate::try_buf::{
    blob_to_wire, bytes_as_slice, bytes_copy_from_slice, contents, fits_u32, lemma_take_blob,
    lemma_take_string, lemma_take_u32, lemma_take_u64, put_u32, put_u64, string_to_wire,
    take_blob, take_string, take_u32, take_u64, try_get_bytes, try_get_string,
    try_get_u32, try_get_u64, try_put_bytes, try_put_str, u32_to_be, u64_to_be,
};
use bytes::Bytes;
use vstd::prelude::*;
use vstd::utf8::encode_utf8;

verus! {

/// Asks for `data` to be written to the file behind `handle`, at `offset`.
#[derive(Debug, PartialEq)]
pub struct Write {
    pub id: u32,
    pub handle: String,
    pub offset: u64,
    pub data: Bytes,
}

impl Write {
    /// Reads a `Write` payload: the request id, the handle, the offset, and
    /// the data as a blob.
    pub open spec fn take(s: Seq<u8>) -> (Option<(u32, Seq<char>, u64, Seq<u8>)>, Seq<u8>) {
        match take_u32(s) {
            (None, rest) => (None, rest),
            (Some(id), rest) => match take_string(rest) {
                (None, rest) => (None, rest),
                (Some(handle), rest) => match take_u64(rest) {
                    (None, rest) => (None, rest),
                    (Some(offset), rest) => match take_blob(rest) {
                        (None, rest) => (None, rest),
                        (Some(data), rest) => (Some((id, handle, offset, data)), rest),
                    },
                },
            },
        }
    }

    /// A `Write` payload on the wire.
    pub open spec fn to_wire(id: u32, handle: Seq<char>, offset: u64, data: Seq<u8>) -> Seq<u8> {
        u32_to_be(id) + string_to_wire(handle) + u64_to_be(offset) + blob_to_wire(data)
    }

    /// Whether the handle and the data are short enough for the wire.
    pub open spec fn encodable(&self) -> bool {
        fits_u32(encode_utf8(self.handle@).len()) && fits_u32(contents(self.data).len())
    }

    /// The payload on the wire.
    pub open spec fn wire(&self) -> Seq<u8> {
        Write::to_wire(self.id, self.handle@, self.offset, contents(self.data))
    }

    /// A `Write` payload in front of anything is read back, and the rest is
    /// left.
    pub proof fn lemma_take(
        id: u32,
        handle: Seq<char>,
        offset: u64,
        data: Seq<u8>,
        rest: Seq<u8>,
    )
        requires
            fits_u32(encode_utf8(handle).len()),
            fits_u32(data.len()),
        ensures
            Write::take(Write::to_wire(id, handle, offset, data) + rest) == (
                Some((id, handle, offset, data)),
                rest,
            ),
    {
        let tail2 = blob_to_wire(data) + rest;
        let tail1 = u64_to_be(offset) + tail2;
        assert(Write::to_wire(id, handle, offset, data) + rest =~= u32_to_be(id) + (
        string_to_wire(handle) + tail1));
        lemma_take_u32(id, string_to_wire(handle) + tail1);
        lemma_take_string(handle, tail1);
        lemma_take_u64(offset, tail2);
        lemma_take_blob(data, rest);
    }

    /// Reads the payload from the front of `item`; what follows it is ignored.
    pub fn try_from(item: &[u8]) -> (r: Result<Write, Error>)
        ensures
            match r {
                Ok(w) => Write::take(item@).0 == Some(
                    (w.id, w.handle@, w.offset, contents(w.data)),
                ),
                Err(e) => e == Error::BadMessage && Write::take(item@).0.is_none(),
            },
    {
        let mut write_bytes = bytes_copy_from_slice(item);
        let id = try_get_u32(&mut write_bytes)?;
        let handle = try_get_string(&mut write_bytes)?;
        let offset = try_get_u64(&mut write_bytes)?;
        let data_length = try_get_u32(&mut write_bytes)?;
        let data = try_get_bytes(&mut write_bytes, data_length)?;
        Ok(Write { id, handle, offset, data })
    }

    /// Lays out the payload, unless the handle or the data is too long for the
    /// wire.
    pub fn payload(&self) -> (r: Result<Vec<u8>, Error>)
        ensures
            match r {
                Ok(payload) => self.encodable() && payload@ == self.wire(),
                Err(e) => e == Error::Failure && !self.encodable(),
            },
    {
        let mut payload: Vec<u8> = Vec::new();
        put_u32(&mut payload, self.id);
        try_put_str(&mut payload, self.handle.as_str())?;
        put_u64(&mut payload, self.offset);
        try_put_bytes(&mut payload, bytes_as_slice(&self.data))?;
        assert(payload@ =~= self.wire());
        Ok(payload)
    }
}

} // verus!
