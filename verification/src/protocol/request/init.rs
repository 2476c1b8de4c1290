//! The request that opens a session.

use crate::error::Error;
use crate::try_buf::{contents, put_u8, take_u8, try_get_u8};
use bytes::Bytes;
use vstd::prelude::*;

verus! {

/// The first request of a session: the protocol version the client speaks.
#[derive(Debug, PartialEq)]
pub struct Init {
    pub version: u8,
}

impl Init {
    /// The payload on the wire: the version, in one byte.
    pub open spec fn wire(&self) -> Seq<u8> {
        seq![self.version]
    }

    /// Reads the payload off the front of the buffer.
    pub fn try_from(init_bytes: &mut Bytes) -> (r: Result<Init, Error>)
        ensures
            match r {
                Ok(init) => take_u8(contents(*old(init_bytes))) == (
                    Some(init.version),
                    contents(*final(init_bytes)),
                ),
                Err(e) => e == Error::BadMessage && take_u8(contents(*old(init_bytes))) == (
                    None::<u8>,
                    contents(*final(init_bytes)),
                ),
            },
    {
        Ok(Init { version: try_get_u8(init_bytes)? })
    }

    /// Lays out the payload.
    pub fn payload(&self) -> (payload: Vec<u8>)
        ensures
            payload@ == self.wire(),
    {
        let mut payload: Vec<u8> = Vec::new();
        put_u8(&mut payload, self.version);
        assert(payload@ =~= self.wire());
        payload
    }
}

} // verus!
