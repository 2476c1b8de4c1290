//! The request to resolve a path.

use super::id_string::{get_id_string, id_string_payload, id_string_to_wire, take_id_string};
use crate::error::Error;
use crate::try_buf::{bytes_copy_from_slice, fits_u32};
use vstd::prelude::*;
use vstd::utf8::encode_utf8;

verus! {

/// Whether a path can be resolved: its encoding is not empty and holds no zero
/// byte.
pub open spec fn well_formed_path(path: Seq<char>) -> bool {
    let raw = encode_utf8(path);
    raw.len() > 0 && forall|i: int| 0 <= i < raw.len() ==> raw[i] != 0
}

/// Asks for the canonical form of `path`.
#[derive(Debug, PartialEq)]
pub struct Realpath {
    pub id: u32,
    pub path: String,
}

impl Realpath {
    /// Whether the path is short enough for the wire.
    pub open spec fn encodable(&self) -> bool {
        fits_u32(encode_utf8(self.path@).len())
    }

    /// The payload on the wire: the request id, then the path.
    pub open spec fn wire(&self) -> Seq<u8> {
        id_string_to_wire(self.id, self.path@)
    }

    /// Reads the payload from the front of `item`; what follows it is
    /// ignored.
    pub fn try_from(item: &[u8]) -> (r: Result<Realpath, Error>)
        ensures
            match r {
                Ok(request) => take_id_string(item@).0 == Some((request.id, request.path@)),
                Err(e) => e == Error::BadMessage && take_id_string(item@).0.is_none(),
            },
    {
        let mut bytes = bytes_copy_from_slice(item);
        let (id, path) = get_id_string(&mut bytes)?;
        Ok(Realpath { id, path })
    }

    /// Whether the path can be resolved: its encoding is not empty and holds
    /// no zero byte, so that nothing downstream can cut it short.
    pub open spec fn well_formed(&self) -> bool {
        well_formed_path(self.path@)
    }

    /// Tells whether the path can be resolved.
    pub fn is_well_formed(&self) -> (ok: bool)
        ensures
            ok == self.well_formed(),
    {
        let raw = self.path.as_str().as_bytes();
        if raw.len() == 0 {
            return false;
        }
        let mut i: usize = 0;
        while i < raw.len()
            invariant
                i <= raw@.len(),
                raw@ == encode_utf8(self.path@),
                forall|j: int| 0 <= j < i ==> raw@[j] != 0,
            decreases raw@.len() - i,
        {
            if raw[i] == 0 {
                return false;
            }
            i += 1;
        }
        true
    }

    /// Reads the payload from the front of `byte` and accepts it only if its
    /// path can be resolved.
    pub fn parse_bytes(byte: &[u8]) -> (r: Result<Realpath, Error>)
        ensures
            match r {
                Ok(request) => take_id_string(byte@).0 == Some((request.id, request.path@))
                    && request.well_formed(),
                Err(e) => e == Error::BadMessage && match take_id_string(byte@).0 {
                    Some((_, path)) => !well_formed_path(path),
                    None => true,
                },
            },
    {
        let request = Realpath::try_from(byte)?;
        if request.is_well_formed() {
            Ok(request)
        } else {
            Err(Error::BadMessage)
        }
    }

    /// Lays out the payload, unless the path is too long for the wire.
    pub fn payload(&self) -> (r: Result<Vec<u8>, Error>)
        ensures
            match r {
                Ok(payload) => self.encodable() && payload@ == self.wire(),
                Err(e) => e == Error::Failure && !self.encodable(),
            },
    {
        id_string_payload(self.id, self.path.as_str())
    }
}

} // verus!
