//! The request to open a file.

use crate::error::Error;
use crate::try_buf::{
    contents, fits_u32, lemma_take_string, lemma_take_u32, put_u32, string_to_wire, take_string,
    take_u32, try_get_string, try_get_u32, try_put_str, u32_to_be,
};
use bytes::Bytes;
use vstd::prelude::*;
use vstd::utf8::encode_utf8;

verus! {

/// The flag bit that asks for reading.
pub const SSH_FXF_READ: u32 = 0x01;

/// The flag bit that asks for writing.
pub const SSH_FXF_WRITE: u32 = 0x02;

/// Asks for a stream on the file at `path`; `flags` say in which direction.
#[derive(Debug, PartialEq)]
pub struct Open {
    pub id: u32,
    pub path: String,
    pub flags: u32,
}

impl Open {
    /// Reads an `Open` payload: the request id, the path, the flags.
    pub open spec fn take(s: Seq<u8>) -> (Option<(u32, Seq<char>, u32)>, Seq<u8>) {
        match take_u32(s) {
            (None, rest) => (None, rest),
            (Some(id), rest) => match take_string(rest) {
                (None, rest) => (None, rest),
                (Some(path), rest) => match take_u32(rest) {
                    (None, rest) => (None, rest),
                    (Some(flags), rest) => (Some((id, path, flags)), rest),
                },
            },
        }
    }

    /// An `Open` payload on the wire.
    pub open spec fn to_wire(id: u32, path: Seq<char>, flags: u32) -> Seq<u8> {
        u32_to_be(id) + string_to_wire(path) + u32_to_be(flags)
    }

    /// Whether the path is short enough for the wire.
    pub open spec fn encodable(&self) -> bool {
        fits_u32(encode_utf8(self.path@).len())
    }

    /// The payload on the wire.
    pub open spec fn wire(&self) -> Seq<u8> {
        Open::to_wire(self.id, self.path@, self.flags)
    }

    /// An `Open` payload in front of anything is read back, and the rest is
    /// left.
    pub proof fn lemma_take(id: u32, path: Seq<char>, flags: u32, rest: Seq<u8>)
        requires
            fits_u32(encode_utf8(path).len()),
        ensures
            Open::take(Open::to_wire(id, path, flags) + rest) == (Some((id, path, flags)), rest),
    {
        let tail = u32_to_be(flags) + rest;
        assert(Open::to_wire(id, path, flags) + rest =~= u32_to_be(id) + (string_to_wire(path)
            + tail));
        lemma_take_u32(id, string_to_wire(path) + tail);
        lemma_take_string(path, tail);
        lemma_take_u32(flags, rest);
    }

    /// Reads the payload off the front of the buffer.
    pub fn try_from(open_bytes: &mut Bytes) -> (r: Result<Open, Error>)
        ensures
            match r {
                Ok(o) => Open::take(contents(*old(open_bytes))) == (
                    Some((o.id, o.path@, o.flags)),
                    contents(*final(open_bytes)),
                ),
                Err(e) => e == Error::BadMessage && Open::take(contents(*old(open_bytes))) == (
                    None::<(u32, Seq<char>, u32)>,
                    contents(*final(open_bytes)),
                ),
            },
    {
        let id = try_get_u32(open_bytes)?;
        let path = try_get_string(open_bytes)?;
        let flags = try_get_u32(open_bytes)?;
        Ok(Open { id, path, flags })
    }

    /// Lays out the payload, unless the path is too long for the wire.
    pub fn payload(&self) -> (r: Result<Vec<u8>, Error>)
        ensures
            match r {
                Ok(payload) => self.encodable() && payload@ == self.wire(),
                Err(e) => e == Error::Failure && !self.encodable(),
            },
    {
        let mut payload: Vec<u8> = Vec::new();
        put_u32(&mut payload, self.id);
        try_put_str(&mut payload, self.path.as_str())?;
        put_u32(&mut payload, self.flags);
        assert(payload@ =~= self.wire());
        Ok(payload)
    }
}

} // verus!
