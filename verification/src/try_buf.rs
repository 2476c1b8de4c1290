//! Reading and writing the primitive fields of the wire format on `bytes` buffers.
//!
//! All integers are big-endian. A blob is a 32-bit length followed by that many
//! bytes; a string is a blob that holds UTF-8 text. Blobs are never
//! null-terminated.

use crate::error::Error;
use bytes::Bytes;
use vstd::prelude::*;
use vstd::slice::slice_to_vec;
use vstd::utf8::{decode_utf8, encode_utf8, valid_utf8};

verus! {

/// `bytes::Bytes`, a buffer of bytes that is read from the front. Nothing of
/// its inside is known here; what it holds goes by the name `contents`.
#[verifier::external_type_specification]
#[verifier::external_body]
pub struct ExBytes(bytes::Bytes);

/// The bytes that a `Bytes` buffer holds, the next one to be read first.
/// What the functions of `bytes` do to a buffer is stated over this name; the
/// name itself is not defined.
pub uninterp spec fn contents(buf: Bytes) -> Seq<u8>;

/// The number that four bytes spell in big-endian order.
pub open spec fn u32_from_be(b: Seq<u8>) -> u32
    recommends
        b.len() == 4,
{
    (b[0] as u32 * 0x100_0000 + b[1] as u32 * 0x1_0000 + b[2] as u32 * 0x100 + b[3] as u32) as u32
}

/// The four bytes that spell `v` in big-endian order.
pub open spec fn u32_to_be(v: u32) -> Seq<u8> {
    seq![
        (v / 0x100_0000) as u8,
        (v / 0x1_0000 % 0x100) as u8,
        (v / 0x100 % 0x100) as u8,
        (v % 0x100) as u8,
    ]
}

/// The number that eight bytes spell in big-endian order.
pub open spec fn u64_from_be(b: Seq<u8>) -> u64
    recommends
        b.len() == 8,
{
    (u32_from_be(b.take(4)) as u64 * 0x1_0000_0000 + u32_from_be(b.skip(4)) as u64) as u64
}

/// The eight bytes that spell `v` in big-endian order.
pub open spec fn u64_to_be(v: u64) -> Seq<u8> {
    u32_to_be((v / 0x1_0000_0000) as u32) + u32_to_be((v % 0x1_0000_0000) as u32)
}

/// Whether a length can be written as a 32-bit length prefix.
pub open spec fn fits_u32(len: nat) -> bool {
    len <= u32::MAX
}

/// A blob on the wire: the length of `data`, then `data`.
pub open spec fn blob_to_wire(data: Seq<u8>) -> Seq<u8>
    recommends
        fits_u32(data.len()),
{
    u32_to_be(data.len() as u32) + data
}

/// A string on the wire: the blob of its UTF-8 encoding.
pub open spec fn string_to_wire(text: Seq<char>) -> Seq<u8>
    recommends
        fits_u32(encode_utf8(text).len()),
{
    blob_to_wire(encode_utf8(text))
}

/// Reads one byte off the front of `s`: the byte, if there is one, and what is
/// left to read.
pub open spec fn take_u8(s: Seq<u8>) -> (Option<u8>, Seq<u8>) {
    if s.len() < 1 {
        (None, s)
    } else {
        (Some(s[0]), s.skip(1))
    }
}

/// Reads a 32-bit integer off the front of `s`.
pub open spec fn take_u32(s: Seq<u8>) -> (Option<u32>, Seq<u8>) {
    if s.len() < 4 {
        (None, s)
    } else {
        (Some(u32_from_be(s.take(4))), s.skip(4))
    }
}

/// Reads a 64-bit integer off the front of `s`.
pub open spec fn take_u64(s: Seq<u8>) -> (Option<u64>, Seq<u8>) {
    if s.len() < 8 {
        (None, s)
    } else {
        (Some(u64_from_be(s.take(8))), s.skip(8))
    }
}

/// Reads `len` bytes off the front of `s`.
pub open spec fn take_bytes(s: Seq<u8>, len: nat) -> (Option<Seq<u8>>, Seq<u8>) {
    if s.len() < len {
        (None, s)
    } else {
        (Some(s.take(len as int)), s.skip(len as int))
    }
}

/// Reads a blob off the front of `s`: its length, then its bytes. Where the
/// bytes are missing, the length has been read all the same.
pub open spec fn take_blob(s: Seq<u8>) -> (Option<Seq<u8>>, Seq<u8>) {
    match take_u32(s) {
        (Some(len), rest) => take_bytes(rest, len as nat),
        (None, rest) => (None, rest),
    }
}

/// Reads a string off the front of `s`: a blob that must hold valid UTF-8.
/// Where it does not, the blob has been read all the same.
pub open spec fn take_string(s: Seq<u8>) -> (Option<Seq<char>>, Seq<u8>) {
    match take_blob(s) {
        (Some(raw), rest) => if valid_utf8(raw) {
            (Some(decode_utf8(raw)), rest)
        } else {
            (None, rest)
        },
        (None, rest) => (None, rest),
    }
}

/// `Bytes::copy_from_slice`: a buffer that holds a copy of `data`.
#[verifier::external_body]
pub(crate) fn bytes_copy_from_slice(data: &[u8]) -> (buf: Bytes)
    ensures
        contents(buf) == data@,
{
    Bytes::copy_from_slice(data)
}

/// `Clone::clone` on `Bytes`: a second buffer over the same bytes.
#[verifier::external_body]
pub(crate) fn bytes_clone(buf: &Bytes) -> (copy: Bytes)
    ensures
        contents(copy) == contents(*buf),
{
    buf.clone()
}

/// `AsRef<[u8]>::as_ref` on `Bytes`: the bytes of the buffer as a slice.
#[verifier::external_body]
pub(crate) fn bytes_as_slice(buf: &Bytes) -> (data: &[u8])
    ensures
        data@ == contents(*buf),
{
    buf.as_ref()
}

/// `Buf::remaining` on `Bytes`: the number of bytes not yet read.
#[verifier::external_body]
pub(crate) fn buf_remaining(buf: &Bytes) -> (n: usize)
    ensures
        n == contents(*buf).len(),
{
    bytes::Buf::remaining(buf)
}

/// `Buf::get_u8` on `Bytes`: hands out the first byte and moves past it. It
/// panics on an empty buffer, which the precondition rules out.
#[verifier::external_body]
fn buf_get_u8(buf: &mut Bytes) -> (v: u8)
    requires
        contents(*old(buf)).len() >= 1,
    ensures
        v == contents(*old(buf))[0],
        contents(*final(buf)) == contents(*old(buf)).skip(1),
{
    bytes::Buf::get_u8(buf)
}

/// `Buf::get_u32` on `Bytes`: reads four bytes as a big-endian integer and
/// moves past them. It panics on fewer than four bytes, which the precondition
/// rules out.
#[verifier::external_body]
fn buf_get_u32(buf: &mut Bytes) -> (v: u32)
    requires
        contents(*old(buf)).len() >= 4,
    ensures
        v == u32_from_be(contents(*old(buf)).take(4)),
        contents(*final(buf)) == contents(*old(buf)).skip(4),
{
    bytes::Buf::get_u32(buf)
}

/// `Buf::get_u64` on `Bytes`: reads eight bytes as a big-endian integer and
/// moves past them. It panics on fewer than eight bytes, which the
/// precondition rules out.
#[verifier::external_body]
fn buf_get_u64(buf: &mut Bytes) -> (v: u64)
    requires
        contents(*old(buf)).len() >= 8,
    ensures
        v == u64_from_be(contents(*old(buf)).take(8)),
        contents(*final(buf)) == contents(*old(buf)).skip(8),
{
    bytes::Buf::get_u64(buf)
}

/// `Buf::copy_to_bytes` on `Bytes`: splits the first `len` bytes off into a
/// buffer of their own. It panics when `len` exceeds what is left, which the
/// precondition rules out.
#[verifier::external_body]
fn buf_copy_to_bytes(buf: &mut Bytes, len: usize) -> (front: Bytes)
    requires
        len <= contents(*old(buf)).len(),
    ensures
        contents(front) == contents(*old(buf)).take(len as int),
        contents(*final(buf)) == contents(*old(buf)).skip(len as int),
{
    bytes::Buf::copy_to_bytes(buf, len)
}

/// `String::from_utf8`: the text that `raw` encodes, or nothing where `raw` is
/// not valid UTF-8.
#[verifier::external_body]
pub(crate) fn string_from_utf8(raw: Vec<u8>) -> (text: Option<String>)
    ensures
        match text {
            Some(s) => valid_utf8(raw@) && s@ == decode_utf8(raw@),
            None => !valid_utf8(raw@),
        },
{
    String::from_utf8(raw).ok()
}

/// `BufMut::put_u8` on `Vec<u8>`: appends one byte.
#[verifier::external_body]
pub(crate) fn put_u8(buf: &mut Vec<u8>, v: u8)
    ensures
        final(buf)@ == old(buf)@ + seq![v],
{
    bytes::BufMut::put_u8(buf, v)
}

/// `BufMut::put_u32` on `Vec<u8>`: appends the four big-endian bytes of `v`.
#[verifier::external_body]
pub(crate) fn put_u32(buf: &mut Vec<u8>, v: u32)
    ensures
        final(buf)@ == old(buf)@ + u32_to_be(v),
{
    bytes::BufMut::put_u32(buf, v)
}

/// `BufMut::put_u64` on `Vec<u8>`: appends the eight big-endian bytes of `v`.
#[verifier::external_body]
pub(crate) fn put_u64(buf: &mut Vec<u8>, v: u64)
    ensures
        final(buf)@ == old(buf)@ + u64_to_be(v),
{
    bytes::BufMut::put_u64(buf, v)
}

/// `BufMut::put_slice` on `Vec<u8>`: appends a copy of `data`.
#[verifier::external_body]
pub(crate) fn put_slice(buf: &mut Vec<u8>, data: &[u8])
    ensures
        final(buf)@ == old(buf)@ + data@,
{
    bytes::BufMut::put_slice(buf, data)
}

/// Reads one byte, or reports a bad message when the buffer is empty.
pub fn try_get_u8(buf: &mut Bytes) -> (r: Result<u8, Error>)
    ensures
        match r {
            Ok(v) => take_u8(contents(*old(buf))) == (Some(v), contents(*final(buf))),
            Err(e) => e == Error::BadMessage && take_u8(contents(*old(buf))) == (
                None::<u8>,
                contents(*final(buf)),
            ),
        },
{
    if buf_remaining(buf) < 1 {
        return Err(Error::BadMessage);
    }
    Ok(buf_get_u8(buf))
}

/// Reads a big-endian 32-bit integer, or reports a bad message when fewer than
/// four bytes are left.
pub fn try_get_u32(buf: &mut Bytes) -> (r: Result<u32, Error>)
    ensures
        match r {
            Ok(v) => take_u32(contents(*old(buf))) == (Some(v), contents(*final(buf))),
            Err(e) => e == Error::BadMessage && take_u32(contents(*old(buf))) == (
                None::<u32>,
                contents(*final(buf)),
            ),
        },
{
    if buf_remaining(buf) < 4 {
        return Err(Error::BadMessage);
    }
    Ok(buf_get_u32(buf))
}

/// Reads a big-endian 64-bit integer, or reports a bad message when fewer than
/// eight bytes are left.
pub fn try_get_u64(buf: &mut Bytes) -> (r: Result<u64, Error>)
    ensures
        match r {
            Ok(v) => take_u64(contents(*old(buf))) == (Some(v), contents(*final(buf))),
            Err(e) => e == Error::BadMessage && take_u64(contents(*old(buf))) == (
                None::<u64>,
                contents(*final(buf)),
            ),
        },
{
    if buf_remaining(buf) < 8 {
        return Err(Error::BadMessage);
    }
    Ok(buf_get_u64(buf))
}

/// Splits the next `len` bytes off the buffer, or reports a bad message when
/// fewer are left.
pub fn try_get_bytes(buf: &mut Bytes, len: u32) -> (r: Result<Bytes, Error>)
    ensures
        match r {
            Ok(front) => take_bytes(contents(*old(buf)), len as nat) == (
                Some(contents(front)),
                contents(*final(buf)),
            ),
            Err(e) => e == Error::BadMessage && take_bytes(contents(*old(buf)), len as nat) == (
                None::<Seq<u8>>,
                contents(*final(buf)),
            ),
        },
{
    if buf_remaining(buf) < len as usize {
        return Err(Error::BadMessage);
    }
    Ok(buf_copy_to_bytes(buf, len as usize))
}

/// Reads a blob: a 32-bit length and that many bytes.
pub fn try_get_blob(buf: &mut Bytes) -> (r: Result<Bytes, Error>)
    ensures
        match r {
            Ok(data) => take_blob(contents(*old(buf))) == (
                Some(contents(data)),
                contents(*final(buf)),
            ),
            Err(e) => e == Error::BadMessage && take_blob(contents(*old(buf))) == (
                None::<Seq<u8>>,
                contents(*final(buf)),
            ),
        },
{
    let len = match try_get_u32(buf) {
        Ok(len) => len,
        Err(e) => {
            return Err(e);
        },
    };
    try_get_bytes(buf, len)
}

/// Reads a string: a blob whose bytes must be valid UTF-8.
pub fn try_get_string(buf: &mut Bytes) -> (r: Result<String, Error>)
    ensures
        match r {
            Ok(text) => take_string(contents(*old(buf))) == (
                Some(text@),
                contents(*final(buf)),
            ),
            Err(e) => e == Error::BadMessage && take_string(contents(*old(buf))) == (
                None::<Seq<char>>,
                contents(*final(buf)),
            ),
        },
{
    let raw = match try_get_blob(buf) {
        Ok(raw) => raw,
        Err(e) => {
            return Err(e);
        },
    };
    match string_from_utf8(slice_to_vec(bytes_as_slice(&raw))) {
        Some(text) => Ok(text),
        None => Err(Error::BadMessage),
    }
}

/// Appends a blob, unless `data` is too long for a 32-bit length: then nothing
/// is appended.
pub fn try_put_bytes(buf: &mut Vec<u8>, data: &[u8]) -> (r: Result<(), Error>)
    ensures
        match r {
            Ok(_) => fits_u32(data@.len()) && final(buf)@ == old(buf)@ + blob_to_wire(data@),
            Err(e) => e == Error::Failure && !fits_u32(data@.len()) && final(buf)@ == old(buf)@,
        },
{
    if data.len() > u32::MAX as usize {
        return Err(Error::Failure);
    }
    put_u32(buf, data.len() as u32);
    put_slice(buf, data);
    assert(buf@ =~= old(buf)@ + blob_to_wire(data@));
    Ok(())
}

/// Appends a string, unless its encoding is too long for a 32-bit length:
/// then nothing is appended.
pub fn try_put_str(buf: &mut Vec<u8>, text: &str) -> (r: Result<(), Error>)
    ensures
        match r {
            Ok(_) => fits_u32(encode_utf8(text@).len()) && final(buf)@ == old(buf)@
                + string_to_wire(text@),
            Err(e) => e == Error::Failure && !fits_u32(encode_utf8(text@).len()) && final(buf)@
                == old(buf)@,
        },
{
    try_put_bytes(buf, text.as_bytes())
}

/// Four bytes written for a number read back as that number.
pub proof fn lemma_u32_be_round_trip(v: u32)
    ensures
        u32_to_be(v).len() == 4,
        u32_from_be(u32_to_be(v)) == v,
{
}

/// Eight bytes written for a number read back as that number.
pub proof fn lemma_u64_be_round_trip(v: u64)
    ensures
        u64_to_be(v).len() == 8,
        u64_from_be(u64_to_be(v)) == v,
{
    let hi = (v / 0x1_0000_0000) as u32;
    let lo = (v % 0x1_0000_0000) as u32;
    lemma_u32_be_round_trip(hi);
    lemma_u32_be_round_trip(lo);
    assert(u64_to_be(v).take(4) =~= u32_to_be(hi));
    assert(u64_to_be(v).skip(4) =~= u32_to_be(lo));
}

/// A byte in front of anything is read back, and the rest is left.
pub proof fn lemma_take_u8(v: u8, rest: Seq<u8>)
    ensures
        take_u8(seq![v] + rest) == (Some(v), rest),
{
    assert((seq![v] + rest).skip(1) =~= rest);
}

/// A 32-bit integer in front of anything is read back, and the rest is left.
pub proof fn lemma_take_u32(v: u32, rest: Seq<u8>)
    ensures
        take_u32(u32_to_be(v) + rest) == (Some(v), rest),
{
    lemma_u32_be_round_trip(v);
    assert((u32_to_be(v) + rest).take(4) =~= u32_to_be(v));
    assert((u32_to_be(v) + rest).skip(4) =~= rest);
}

/// A 64-bit integer in front of anything is read back, and the rest is left.
pub proof fn lemma_take_u64(v: u64, rest: Seq<u8>)
    ensures
        take_u64(u64_to_be(v) + rest) == (Some(v), rest),
{
    lemma_u64_be_round_trip(v);
    assert((u64_to_be(v) + rest).take(8) =~= u64_to_be(v));
    assert((u64_to_be(v) + rest).skip(8) =~= rest);
}

/// A blob in front of anything is read back, and the rest is left.
pub proof fn lemma_take_blob(data: Seq<u8>, rest: Seq<u8>)
    requires
        fits_u32(data.len()),
    ensures
        take_blob(blob_to_wire(data) + rest) == (Some(data), rest),
{
    let len = data.len() as u32;
    assert(blob_to_wire(data) + rest =~= u32_to_be(len) + (data + rest));
    lemma_take_u32(len, data + rest);
    assert((data + rest).take(data.len() as int) =~= data);
    assert((data + rest).skip(data.len() as int) =~= rest);
}

/// A string in front of anything is read back, and the rest is left.
pub proof fn lemma_take_string(text: Seq<char>, rest: Seq<u8>)
    requires
        fits_u32(encode_utf8(text).len()),
    ensures
        take_string(string_to_wire(text) + rest) == (Some(text), rest),
{
    lemma_take_blob(encode_utf8(text), rest);
    vstd::utf8::encode_utf8_valid_utf8(text);
    vstd::utf8::encode_utf8_decode_utf8(text);
}

/// The empty string on the wire is a length of zero and nothing more.
pub proof fn lemma_empty_string_to_wire()
    ensures
        encode_utf8(Seq::<char>::empty()).len() == 0,
        string_to_wire(Seq::<char>::empty()) == u32_to_be(0),
{
    reveal_with_fuel(encode_utf8, 1);
    assert(encode_utf8(Seq::<char>::empty()) =~= Seq::<u8>::empty());
    assert(string_to_wire(Seq::<char>::empty()) =~= u32_to_be(0));
}

} // verus!
