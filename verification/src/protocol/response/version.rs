//! The response that opens a session.

use crate::try_buf::{put_u32, u32_to_be};
use vstd::prelude::*;

verus! {

/// The protocol version that this server speaks, whatever the client offers.
pub const SERVER_VERSION: u32 = 3;

/// The answer to `Init`: the protocol version of the session.
#[derive(Debug, PartialEq)]
pub struct Version {
    pub version: u32,
}

impl Version {
    /// The payload on the wire: the version.
    pub open spec fn wire(&self) -> Seq<u8> {
        u32_to_be(self.version)
    }

    /// Lays out the payload.
    pub fn payload(&self) -> (payload: Vec<u8>)
        ensures
            payload@ == self.wire(),
    {
        let mut payload: Vec<u8> = Vec::new();
        put_u32(&mut payload, self.version);
        payload
    }
}

} // verus!
