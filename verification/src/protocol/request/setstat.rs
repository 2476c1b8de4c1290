//! The request to change the attributes of a path.

use crate::error::Error;
use crate::try_buf::{bytes_copy_from_slice, put_u32, take_u32, try_get_u32, u32_to_be};
use vstd::prelude::*;

verus! {

/// Asks for new attributes on a path. Only the request id is read; the rest of the payload is of no use,
/// since the answer is always that the operation is unsupported.
#[derive(Debug, PartialEq)]
pub struct Setstat {
    pub id: u32,
}

impl Setstat {
    /// The payload on the wire: the request id.
    pub open spec fn wire(&self) -> Seq<u8> {
        u32_to_be(self.id)
    }

    /// Reads the request id from the front of `item`; what follows it is
    /// ignored.
    pub fn try_from(item: &[u8]) -> (r: Result<Setstat, Error>)
        ensures
            match r {
                Ok(request) => take_u32(item@).0 == Some(request.id),
                Err(e) => e == Error::BadMessage && take_u32(item@).0.is_none(),
            },
    {
        let mut bytes = bytes_copy_from_slice(item);
        Ok(Setstat { id: try_get_u32(&mut bytes)? })
    }

    /// Lays out the payload.
    pub fn payload(&self) -> (payload: Vec<u8>)
        ensures
            payload@ == self.wire(),
    {
        let mut payload: Vec<u8> = Vec::new();
        put_u32(&mut payload, self.id);
        payload
    }
}

} // verus!
