//! The response that hands out a handle.

use crate::error::Error;
use crate::protocol::request::id_string::{id_string_payload, id_string_to_wire};
use crate::try_buf::fits_u32;
use vstd::prelude::*;
use vstd::utf8::encode_utf8;

verus! {

/// The answer to a request that opened something: the handle by which the
/// client names it from now on.
#[derive(Debug, PartialEq)]
pub struct Handle {
    pub id: u32,
    pub handle: String,
}

impl Handle {
    /// Whether the handle is short enough for the wire.
    pub open spec fn encodable(&self) -> bool {
        fits_u32(encode_utf8(self.handle@).len())
    }

    /// The payload on the wire: the request id, then the handle.
    pub open spec fn wire(&self) -> Seq<u8> {
        id_string_to_wire(self.id, self.handle@)
    }

    /// Lays out the payload, unless the handle is too long for the wire.
    pub fn payload(&self) -> (r: Result<Vec<u8>, Error>)
        ensures
            match r {
                Ok(payload) => self.encodable() && payload@ == self.wire(),
                Err(e) => e == Error::Failure && !self.encodable(),
            },
    {
        id_string_payload(self.id, self.handle.as_str())
    }
}

} // verus!
