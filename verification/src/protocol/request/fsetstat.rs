//! The request to change the attributes of an open file.

use crate::error::Error;
use crate::try_buf::{bytes_copy_from_slice, put_u32, take_u32, try_get_u32, u32_to_be};
use vstd::prelude::*;

verus! {

/// Asks for new attributes on an open file. This server sets no attributes,
/// and this request it does not even read in: the decoder refuses it as
/// unimplemented. The type stands for the request where one is made by
/// hand; the session answers it with the same refusal.
#[derive(Debug, PartialEq)]
pub struct Fsetstat {
    pub id: u32,
}

impl Fsetstat {
    /// The payload on the wire: the request id.
    pub open spec fn wire(&self) -> Seq<u8> {
        u32_to_be(self.id)
    }

    /// Why a payload is refused: a payload too short for the request id is a
    /// bad message, and any other is unimplemented.
    pub open spec fn refusal(s: Seq<u8>) -> Error {
        if take_u32(s).0.is_some() {
            Error::Unimplemented
        } else {
            Error::BadMessage
        }
    }

    /// Refuses the payload, whatever it holds: no payload is read in as a
    /// request.
    pub fn try_from(item: &[u8]) -> (r: Result<Fsetstat, Error>)
        ensures
            r == Err::<Fsetstat, Error>(Fsetstat::refusal(item@)),
    {
        let mut bytes = bytes_copy_from_slice(item);
        let _id = try_get_u32(&mut bytes)?;
        Err(Error::Unimplemented)
    }

    /// Lays out the payload.
    pub fn payload(&self) -> (payload: Vec<u8>)
        ensures
            payload@ == self.wire(),
    {
        let mut payload: Vec<u8> = Vec::new();
        put_u32(&mut payload, self.id);
        payload
    }
}

} // verus!
