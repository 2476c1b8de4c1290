//! Requests that name one open handle.

use super::id_string::{get_id_string, id_string_payload, id_string_to_wire, take_id_string};
use crate::error::Error;
use crate::try_buf::{contents, fits_u32};
use bytes::Bytes;
use vstd::prelude::*;
use vstd::utf8::encode_utf8;

verus! {

/// A request that names one open handle: to close it, to list it, or to
/// describe it.
#[derive(Debug, PartialEq)]
pub struct Handle {
    pub id: u32,
    pub handle: String,
}

impl Handle {
    /// Whether the handle is short enough for the wire.
    pub open spec fn encodable(&self) -> bool {
        fits_u32(encode_utf8(self.handle@).len())
    }

    /// The payload on the wire: the request id, then the handle.
    pub open spec fn wire(&self) -> Seq<u8> {
        id_string_to_wire(self.id, self.handle@)
    }

    /// Reads the payload off the front of the buffer.
    pub fn try_from(handle_bytes: &mut Bytes) -> (r: Result<Handle, Error>)
        ensures
            match r {
                Ok(h) => take_id_string(contents(*old(handle_bytes))) == (
                    Some((h.id, h.handle@)),
                    contents(*final(handle_bytes)),
                ),
                Err(e) => e == Error::BadMessage && take_id_string(contents(*old(handle_bytes)))
                    == (None::<(u32, Seq<char>)>, contents(*final(handle_bytes))),
            },
    {
        let (id, handle) = get_id_string(handle_bytes)?;
        Ok(Handle { id, handle })
    }

    /// Lays out the payload, unless the handle is too long for the wire.
    pub fn payload(&self) -> (r: Result<Vec<u8>, Error>)
        ensures
            match r {
                Ok(payload) => self.encodable() && payload@ == self.wire(),
                Err(e) => e == Error::Failure && !self.encodable(),
            },
    {
        id_string_payload(self.id, self.handle.as_str())
    }
}

} // verus!
