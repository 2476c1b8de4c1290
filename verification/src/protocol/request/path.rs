//! Requests that name one path.

use super::id_string::{get_id_string, id_string_payload, id_string_to_wire, take_id_string};
use crate::error::Error;
use crate::try_buf::{contents, fits_u32};
use bytes::Bytes;
use vstd::prelude::*;
use vstd::utf8::encode_utf8;

verus! {

/// A request that names one path: to remove the file there, or to describe
/// what is there.
#[derive(Debug, PartialEq)]
pub struct Path {
    pub id: u32,
    pub path: String,
}

impl Path {
    /// Whether the path is short enough for the wire.
    pub open spec fn encodable(&self) -> bool {
        fits_u32(encode_utf8(self.path@).len())
    }

    /// The payload on the wire: the request id, then the path.
    pub open spec fn wire(&self) -> Seq<u8> {
        id_string_to_wire(self.id, self.path@)
    }

    /// Reads the payload off the front of the buffer.
    pub fn try_from(path_bytes: &mut Bytes) -> (r: Result<Path, Error>)
        ensures
            match r {
                Ok(p) => take_id_string(contents(*old(path_bytes))) == (
                    Some((p.id, p.path@)),
                    contents(*final(path_bytes)),
                ),
                Err(e) => e == Error::BadMessage && take_id_string(contents(*old(path_bytes)))
                    == (None::<(u32, Seq<char>)>, contents(*final(path_bytes))),
            },
    {
        let (id, path) = get_id_string(path_bytes)?;
        Ok(Path { id, path })
    }

    /// Lays out the payload, unless the path is too long for the wire.
    pub fn payload(&self) -> (r: Result<Vec<u8>, Error>)
        ensures
            match r {
                Ok(payload) => self.encodable() && payload@ == self.wire(),
                Err(e) => e == Error::Failure && !self.encodable(),
            },
    {
        id_string_payload(self.id, self.path.as_str())
    }
}

} // verus!
