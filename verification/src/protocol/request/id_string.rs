//! The layout that most requests share: a request id and one string.

use crate::error::Error;
use crate::try_buf::{
    contents, fits_u32, lemma_take_string, lemma_take_u32, put_u32, string_to_wire, take_string,
    take_u32, try_get_string, try_get_u32, try_put_str, u32_to_be,
};
use bytes::Bytes;
use vstd::prelude::*;
use vstd::utf8::encode_utf8;

verus! {

/// Reads a request id and one string: the layout of every request that names
/// one handle or one path.
pub open spec fn take_id_string(s: Seq<u8>) -> (Option<(u32, Seq<char>)>, Seq<u8>) {
    match take_u32(s) {
        (None, rest) => (None, rest),
        (Some(id), rest) => match take_string(rest) {
            (None, rest) => (None, rest),
            (Some(text), rest) => (Some((id, text)), rest),
        },
    }
}

/// A request id and one string on the wire.
pub open spec fn id_string_to_wire(id: u32, text: Seq<char>) -> Seq<u8> {
    u32_to_be(id) + string_to_wire(text)
}

/// A request id and a string in front of anything are read back, and the rest
/// is left.
pub proof fn lemma_take_id_string(id: u32, text: Seq<char>, rest: Seq<u8>)
    requires
        fits_u32(encode_utf8(text).len()),
    ensures
        take_id_string(id_string_to_wire(id, text) + rest) == (Some((id, text)), rest),
{
    assert(id_string_to_wire(id, text) + rest =~= u32_to_be(id) + (string_to_wire(text) + rest));
    lemma_take_u32(id, string_to_wire(text) + rest);
    lemma_take_string(text, rest);
}

/// Reads a request id and one string off the front of the buffer.
pub fn get_id_string(buf: &mut Bytes) -> (r: Result<(u32, String), Error>)
    ensures
        match r {
            Ok((id, text)) => take_id_string(contents(*old(buf))) == (
                Some((id, text@)),
                contents(*final(buf)),
            ),
            Err(e) => e == Error::BadMessage && take_id_string(contents(*old(buf))) == (
                None::<(u32, Seq<char>)>,
                contents(*final(buf)),
            ),
        },
{
    let id = try_get_u32(buf)?;
    let text = try_get_string(buf)?;
    Ok((id, text))
}

/// Lays out a request id and one string, unless the string is too long for the
/// wire.
pub fn id_string_payload(id: u32, text: &str) -> (r: Result<Vec<u8>, Error>)
    ensures
        match r {
            Ok(payload) => fits_u32(encode_utf8(text@).len()) && payload@ == id_string_to_wire(
                id,
                text@,
            ),
            Err(e) => e == Error::Failure && !fits_u32(encode_utf8(text@).len()),
        },
{
    let mut payload: Vec<u8> = Vec::new();
    put_u32(&mut payload, id);
    try_put_str(&mut payload, text)?;
    assert(payload@ =~= id_string_to_wire(id, text@));
    Ok(payload)
}

} // verus!
