//! The request to create a directory.

use super::id_string::{get_id_string, id_string_payload, id_string_to_wire, take_id_string};
use crate::error::Error;
use crate::try_buf::{bytes_copy_from_slice, fits_u32};
use vstd::prelude::*;
use vstd::utf8::encode_utf8;

verus! {

/// Asks for a directory at `path`.
#[derive(Debug, PartialEq)]
pub struct Mkdir {
    pub id: u32,
    pub path: String,
}

impl Mkdir {
    /// Whether the path is short enough for the wire.
    pub open spec fn encodable(&self) -> bool {
        fits_u32(encode_utf8(self.path@).len())
    }

    /// The payload on the wire: the request id, then the path.
    pub open spec fn wire(&self) -> Seq<u8> {
        id_string_to_wire(self.id, self.path@)
    }

    /// Reads the payload from the front of `item`; what follows it is
    /// ignored.
    pub fn try_from(item: &[u8]) -> (r: Result<Mkdir, Error>)
        ensures
            match r {
                Ok(request) => take_id_string(item@).0 == Some((request.id, request.path@)),
                Err(e) => e == Error::BadMessage && take_id_string(item@).0.is_none(),
            },
    {
        let mut bytes = bytes_copy_from_slice(item);
        let (id, path) = get_id_string(&mut bytes)?;
        Ok(Mkdir { id, path })
    }

    /// Lays out the payload, unless the path is too long for the wire.
    pub fn payload(&self) -> (r: Result<Vec<u8>, Error>)
        ensures
            match r {
                Ok(payload) => self.encodable() && payload@ == self.wire(),
                Err(e) => e == Error::Failure && !self.encodable(),
            },
    {
        id_string_payload(self.id, self.path.as_str())
    }
}

} // verus!
