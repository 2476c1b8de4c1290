//! The request to rename a file or directory.

use crate::error::Error;
use crate::try_buf::{
    contents, fits_u32, lemma_take_string, lemma_take_u32, put_u32, string_to_wire, take_string,
    take_u32, try_get_string, try_get_u32, try_put_str, u32_to_be,
};
use bytes::Bytes;
use vstd::prelude::*;
use vstd::utf8::encode_utf8;

verus! {

/// Asks for what is at `old_path` to be found at `new_path` from now on.
#[derive(Debug, PartialEq)]
pub struct Rename {
    pub id: u32,
    pub old_path: String,
    pub new_path: String,
}

impl Rename {
    /// Reads a `Rename` payload: the request id, the old path, the new path.
    pub open spec fn take(s: Seq<u8>) -> (Option<(u32, Seq<char>, Seq<char>)>, Seq<u8>) {
        match take_u32(s) {
            (None, rest) => (None, rest),
            (Some(id), rest) => match take_string(rest) {
                (None, rest) => (None, rest),
                (Some(old_path), rest) => match take_string(rest) {
                    (None, rest) => (None, rest),
                    (Some(new_path), rest) => (Some((id, old_path, new_path)), rest),
                },
            },
        }
    }

    /// A `Rename` payload on the wire.
    pub open spec fn to_wire(id: u32, old_path: Seq<char>, new_path: Seq<char>) -> Seq<u8> {
        u32_to_be(id) + string_to_wire(old_path) + string_to_wire(new_path)
    }

    /// Whether both paths are short enough for the wire.
    pub open spec fn encodable(&self) -> bool {
        fits_u32(encode_utf8(self.old_path@).len()) && fits_u32(encode_utf8(self.new_path@).len())
    }

    /// The payload on the wire.
    pub open spec fn wire(&self) -> Seq<u8> {
        Rename::to_wire(self.id, self.old_path@, self.new_path@)
    }

    /// A `Rename` payload in front of anything is read back, and the rest is
    /// left.
    pub proof fn lemma_take(id: u32, old_path: Seq<char>, new_path: Seq<char>, rest: Seq<u8>)
        requires
            fits_u32(encode_utf8(old_path).len()),
            fits_u32(encode_utf8(new_path).len()),
        ensures
            Rename::take(Rename::to_wire(id, old_path, new_path) + rest) == (
                Some((id, old_path, new_path)),
                rest,
            ),
    {
        let tail = string_to_wire(new_path) + rest;
        assert(Rename::to_wire(id, old_path, new_path) + rest =~= u32_to_be(id) + (
        string_to_wire(old_path) + tail));
        lemma_take_u32(id, string_to_wire(old_path) + tail);
        lemma_take_string(old_path, tail);
        lemma_take_string(new_path, rest);
    }

    /// Reads the payload off the front of the buffer.
    pub fn try_from(rename_bytes: &mut Bytes) -> (r: Result<Rename, Error>)
        ensures
            match r {
                Ok(x) => Rename::take(contents(*old(rename_bytes))) == (
                    Some((x.id, x.old_path@, x.new_path@)),
                    contents(*final(rename_bytes)),
                ),
                Err(e) => e == Error::BadMessage && Rename::take(contents(*old(rename_bytes)))
                    == (None::<(u32, Seq<char>, Seq<char>)>, contents(*final(rename_bytes))),
            },
    {
        let id = try_get_u32(rename_bytes)?;
        let old_path = try_get_string(rename_bytes)?;
        let new_path = try_get_string(rename_bytes)?;
        Ok(Rename { id, old_path, new_path })
    }

    /// Lays out the payload, unless a path is too long for the wire.
    pub fn payload(&self) -> (r: Result<Vec<u8>, Error>)
        ensures
            match r {
                Ok(payload) => self.encodable() && payload@ == self.wire(),
                Err(e) => e == Error::Failure && !self.encodable(),
            },
    {
        let mut payload: Vec<u8> = Vec::new();
        put_u32(&mut payload, self.id);
        try_put_str(&mut payload, self.old_path.as_str())?;
        try_put_str(&mut payload, self.new_path.as_str())?;
        assert(payload@ =~= self.wire());
        Ok(payload)
    }
}

} // verus!
