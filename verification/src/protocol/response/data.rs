//! The response that carries bytes read from a file.

use crate::error::Error;
use crate::try_buf::{blob_to_wire, fits_u32, put_u32, try_put_bytes, u32_to_be};
use vstd::prelude::*;

verus! {

/// The answer to a read: the bytes that were read.
#[derive(Debug, PartialEq)]
pub struct Data {
    pub id: u32,
    pub data: Vec<u8>,
}

impl Data {
    /// A `Data` payload on the wire: the request id, then the bytes as a blob.
    pub open spec fn to_wire(id: u32, data: Seq<u8>) -> Seq<u8> {
        u32_to_be(id) + blob_to_wire(data)
    }

    /// Whether the bytes are few enough for the wire.
    pub open spec fn encodable(&self) -> bool {
        fits_u32(self.data@.len())
    }

    /// The payload on the wire.
    pub open spec fn wire(&self) -> Seq<u8> {
        Data::to_wire(self.id, self.data@)
    }

    /// Lays out the payload, unless the bytes are too many for the wire.
    pub fn payload(&self) -> (r: Result<Vec<u8>, Error>)
        ensures
            match r {
                Ok(payload) => self.encodable() && payload@ == self.wire(),
                Err(e) => e == Error::Failure && !self.encodable(),
            },
    {
        let mut payload: Vec<u8> = Vec::new();
        put_u32(&mut payload, self.id);
        try_put_bytes(&mut payload, self.data.as_slice())?;
        assert(payload@ =~= self.wire());
        Ok(payload)
    }
}

} // verus!
