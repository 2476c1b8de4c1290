//! The names under which open handles go over the wire.
//!
//! A handle is named by the number of its session and its own number within
//! the session: sixteen bytes, written as thirty-two lowercase hexadecimal
//! digits. Two sessions with different numbers never name a handle alike.

use crate::try_buf::{
    bytes_copy_from_slice, lemma_u64_be_round_trip, put_u64, string_from_utf8, try_get_u64,
    u64_from_be, u64_to_be,
};
use vstd::prelude::*;
use vstd::utf8::{
    decode_utf8, encode_utf8, encode_utf8_decode_utf8, encode_utf8_valid_utf8, is_ascii_chars,
    is_ascii_chars_encode_utf8, valid_utf8,
};

verus! {

/// The number of digits in the name of a handle.
pub const HANDLE_LEN: usize = 32;

/// The digit for a value below sixteen, as an ASCII byte.
pub open spec fn hex_digit(value: u8) -> u8
    recommends
        value < 16,
{
    if value < 10 {
        (48 + value) as u8
    } else {
        (87 + value) as u8
    }
}

/// The value of a lowercase hexadecimal digit, if the byte is one.
pub open spec fn hex_value(digit: u8) -> Option<u8> {
    if 48 <= digit <= 57 {
        Some((digit - 48) as u8)
    } else if 97 <= digit <= 102 {
        Some((digit - 87) as u8)
    } else {
        None
    }
}

/// Bytes as hexadecimal digits, two for each byte, the high half first.
pub open spec fn to_hex(bytes: Seq<u8>) -> Seq<u8> {
    Seq::new(
        2 * bytes.len(),
        |i: int|
            if i % 2 == 0 {
                hex_digit(bytes[i / 2] / 16)
            } else {
                hex_digit(bytes[i / 2] % 16)
            },
    )
}

/// Whether every byte of `text` is a lowercase hexadecimal digit.
pub open spec fn all_hex(text: Seq<u8>) -> bool {
    forall|i: int| 0 <= i < text.len() ==> hex_value(#[trigger] text[i]).is_some()
}

/// The bytes that hexadecimal digits spell, if there is an even number of
/// them and each is a digit.
pub open spec fn from_hex(text: Seq<u8>) -> Option<Seq<u8>> {
    if text.len() % 2 == 0 && all_hex(text) {
        Some(
            Seq::new(
                text.len() / 2,
                |i: int|
                    (hex_value(text[2 * i]).unwrap() * 16 + hex_value(text[2 * i + 1]).unwrap()) as u8,
            ),
        )
    } else {
        None
    }
}

/// The name of a handle as bytes on the wire.
pub open spec fn handle_bytes(session: u64, number: u64) -> Seq<u8> {
    to_hex(u64_to_be(session) + u64_to_be(number))
}

/// The name of a handle as text.
#[verifier::opaque]
pub open spec fn handle_text(session: u64, number: u64) -> Seq<char> {
    Seq::new(HANDLE_LEN as nat, |i: int| handle_bytes(session, number)[i] as char)
}

/// The session and the number that a name stands for, if it is the name of a
/// handle at all.
pub open spec fn parse_handle(raw: Seq<u8>) -> Option<(u64, u64)> {
    if raw.len() != HANDLE_LEN {
        None
    } else {
        match from_hex(raw) {
            None => None,
            Some(bytes) => Some((u64_from_be(bytes.take(8)), u64_from_be(bytes.skip(8)))),
        }
    }
}

/// The session and the number that a handle in a request stands for.
#[verifier::opaque]
pub open spec fn handle_of_text(text: Seq<char>) -> Option<(u64, u64)> {
    parse_handle(encode_utf8(text))
}

/// Digits written for bytes spell those bytes.
pub proof fn lemma_hex_round_trip(bytes: Seq<u8>)
    ensures
        to_hex(bytes).len() == 2 * bytes.len(),
        all_hex(to_hex(bytes)),
        from_hex(to_hex(bytes)) == Some(bytes),
{
    let text = to_hex(bytes);
    assert forall|i: int| 0 <= i < text.len() implies hex_value(#[trigger] text[i]).is_some() by {
        let b = bytes[i / 2];
        assert(b / 16 < 16 && b % 16 < 16);
    }
    assert(from_hex(text).unwrap() =~= bytes) by {
        assert forall|i: int| 0 <= i < bytes.len() implies from_hex(text).unwrap()[i]
            == bytes[i] by {
            let b = bytes[i];
            assert((2 * i) % 2 == 0 && (2 * i) / 2 == i);
            assert((2 * i + 1) % 2 == 1 && (2 * i + 1) / 2 == i);
            assert(text[2 * i] == hex_digit(b / 16));
            assert(text[2 * i + 1] == hex_digit(b % 16));
            assert(b / 16 < 16 && b % 16 < 16);
            assert((b / 16) * 16 + b % 16 == b);
        }
    }
}

/// The text of a handle's name is plain ASCII, and its encoding is the name
/// as bytes.
pub proof fn lemma_handle_text_encoding(session: u64, number: u64)
    ensures
        handle_bytes(session, number).len() == HANDLE_LEN,
        encode_utf8(handle_text(session, number)) == handle_bytes(session, number),
        valid_utf8(handle_bytes(session, number)),
        decode_utf8(handle_bytes(session, number)) == handle_text(session, number),
{
    reveal(handle_text);
    let raw = handle_bytes(session, number);
    let text = handle_text(session, number);
    lemma_u64_be_round_trip(session);
    lemma_u64_be_round_trip(number);
    lemma_hex_round_trip(u64_to_be(session) + u64_to_be(number));
    assert forall|i: int| 0 <= i < text.len() implies '\0' <= #[trigger] text[i] <= '\u{7f}'
        && text[i] as u8 == raw[i] by {
        assert(hex_value(raw[i]).is_some());
    }
    assert(is_ascii_chars(text));
    is_ascii_chars_encode_utf8(text);
    assert(encode_utf8(text) =~= raw);
    encode_utf8_valid_utf8(text);
    encode_utf8_decode_utf8(text);
}

/// A handle's name stands for the session and the number it was made from.
/// So names made from different sessions or numbers differ.
pub proof fn lemma_handle_round_trip(session: u64, number: u64)
    ensures
        handle_of_text(handle_text(session, number)) == Some((session, number)),
{
    reveal(handle_of_text);
    let bytes = u64_to_be(session) + u64_to_be(number);
    lemma_handle_text_encoding(session, number);
    lemma_u64_be_round_trip(session);
    lemma_u64_be_round_trip(number);
    lemma_hex_round_trip(bytes);
    assert(bytes.take(8) =~= u64_to_be(session));
    assert(bytes.skip(8) =~= u64_to_be(number));
}

/// Handles of different sessions, and different handles of one session,
/// have different names: no name is used twice.
pub proof fn lemma_names_differ(session: u64, number: u64, other_session: u64, other_number: u64)
    requires
        session != other_session || number != other_number,
    ensures
        handle_text(session, number) != handle_text(other_session, other_number),
{
    lemma_handle_round_trip(session, number);
    lemma_handle_round_trip(other_session, other_number);
}

/// The digit for a value below sixteen.
fn digit_of(value: u8) -> (digit: u8)
    requires
        value < 16,
    ensures
        digit == hex_digit(value),
{
    if value < 10 {
        48 + value
    } else {
        87 + value
    }
}

/// The value of a digit, if the byte is one.
fn value_of(digit: u8) -> (value: Option<u8>)
    ensures
        value == hex_value(digit),
{
    if 48 <= digit && digit <= 57 {
        Some(digit - 48)
    } else if 97 <= digit && digit <= 102 {
        Some(digit - 87)
    } else {
        None
    }
}

/// Writes bytes as hexadecimal digits.
fn hex_encode(bytes: &[u8]) -> (text: Vec<u8>)
    ensures
        text@ == to_hex(bytes@),
{
    let mut text: Vec<u8> = Vec::new();
    let mut i: usize = 0;
    while i < bytes.len()
        invariant
            i <= bytes@.len(),
            text@.len() == 2 * i,
            forall|j: int| 0 <= j < 2 * i ==> #[trigger] text@[j] == to_hex(bytes@)[j],
        decreases bytes@.len() - i,
    {
        let b = bytes[i];
        text.push(digit_of(b / 16));
        text.push(digit_of(b % 16));
        proof {
            assert((2 * i) % 2 == 0 && (2 * i) / 2 == i);
            assert((2 * i + 1) % 2 == 1 && (2 * i + 1) / 2 == i);
        }
        i += 1;
    }
    assert(text@ =~= to_hex(bytes@));
    text
}

/// Reads the bytes that hexadecimal digits spell.
fn hex_decode(text: &[u8]) -> (bytes: Option<Vec<u8>>)
    ensures
        match bytes {
            Some(b) => from_hex(text@) == Some(b@),
            None => from_hex(text@).is_none(),
        },
{
    if text.len() % 2 != 0 {
        return None;
    }
    let mut bytes: Vec<u8> = Vec::new();
    let mut i: usize = 0;
    while i < text.len() / 2
        invariant
            text@.len() % 2 == 0,
            i <= text@.len() / 2,
            bytes@.len() == i,
            forall|j: int| 0 <= j < 2 * i ==> hex_value(#[trigger] text@[j]).is_some(),
            forall|j: int|
                0 <= j < i ==> #[trigger] bytes@[j] == (hex_value(text@[2 * j]).unwrap() * 16
                    + hex_value(text@[2 * j + 1]).unwrap()) as u8,
        decreases text@.len() / 2 - i,
    {
        let high = match value_of(text[2 * i]) {
            Some(v) => v,
            None => {
                return None;
            },
        };
        let low = match value_of(text[2 * i + 1]) {
            Some(v) => v,
            None => {
                return None;
            },
        };
        bytes.push(high * 16 + low);
        i += 1;
    }
    assert(all_hex(text@));
    assert(bytes@ =~= from_hex(text@).unwrap());
    Some(bytes)
}

/// Writes the name of the handle with number `number` in session `session`.
pub fn render_handle(session: u64, number: u64) -> (name: String)
    ensures
        name@ == handle_text(session, number),
{
    let mut bytes: Vec<u8> = Vec::new();
    put_u64(&mut bytes, session);
    put_u64(&mut bytes, number);
    let text = hex_encode(bytes.as_slice());
    proof {
        assert(bytes@ =~= u64_to_be(session) + u64_to_be(number));
        lemma_handle_text_encoding(session, number);
    }
    string_from_utf8(text).unwrap()
}

/// Reads the name of a handle: the session and the number it stands for, or
/// nothing where the text is no such name.
pub fn parse_handle_name(name: &str) -> (r: Option<(u64, u64)>)
    ensures
        r == handle_of_text(name@),
{
    proof {
        reveal(handle_of_text);
    }
    let raw = name.as_bytes();
    if raw.len() != HANDLE_LEN {
        return None;
    }
    let bytes = match hex_decode(raw) {
        Some(bytes) => bytes,
        None => {
            return None;
        },
    };
    let mut buf = bytes_copy_from_slice(bytes.as_slice());
    let session = match try_get_u64(&mut buf) {
        Ok(v) => v,
        Err(_) => {
            return None;
        },
    };
    let number = match try_get_u64(&mut buf) {
        Ok(v) => v,
        Err(_) => {
            return None;
        },
    };
    proof {
        assert(bytes@.skip(8).take(8) =~= bytes@.skip(8));
    }
    Some((session, number))
}

} // verus!
