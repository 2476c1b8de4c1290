//! The response that describes one file.

use super::name::File;
use crate::try_buf::{put_u32, u32_to_be};
use vstd::prelude::*;

verus! {

/// The answer to a request for metadata: what is known of the file.
#[derive(Debug, PartialEq)]
pub struct Attrs {
    pub id: u32,
    pub file: File,
}

impl Attrs {
    /// The payload on the wire: the request id, then the attributes. The
    /// file's name is not part of it.
    pub open spec fn wire(&self) -> Seq<u8> {
        u32_to_be(self.id) + self.file@.attrs_to_wire()
    }

    /// Lays out the payload.
    pub fn payload(&self) -> (payload: Vec<u8>)
        ensures
            payload@ == self.wire(),
    {
        let mut payload: Vec<u8> = Vec::new();
        put_u32(&mut payload, self.id);
        self.file.put_attrs(&mut payload);
        payload
    }
}

} // verus!
