//! The response that reports how a request ended.

use crate::error::Error;
use crate::try_buf::{
    bytes_copy_from_slice, fits_u32, lemma_empty_string_to_wire, lemma_take_string, lemma_take_u32, put_u32, string_to_wire,
    take_string, take_u32, try_get_string, try_get_u32, try_put_str, u32_to_be,
};
use vstd::prelude::*;
use vstd::utf8::{encode_utf8, is_ascii_chars, is_ascii_chars_encode_utf8};

verus! {

/// How a request ended, in the numbering that the protocol fixes.
#[derive(Clone, Copy, Debug, PartialEq, Eq, Structural)]
pub enum StatusCode {
    Okay,
    Eof,
    NoSuchFile,
    PermissionDenied,
    Failure,
    BadMessage,
    NoConnection,
    ConnectionLost,
    OpUnsupported,
    InvalidHandle,
}

impl StatusCode {
    /// The number of the code on the wire.
    pub open spec fn number(self) -> u32 {
        match self {
            StatusCode::Okay => 0,
            StatusCode::Eof => 1,
            StatusCode::NoSuchFile => 2,
            StatusCode::PermissionDenied => 3,
            StatusCode::Failure => 4,
            StatusCode::BadMessage => 5,
            StatusCode::NoConnection => 6,
            StatusCode::ConnectionLost => 7,
            StatusCode::OpUnsupported => 8,
            StatusCode::InvalidHandle => 9,
        }
    }

    /// The code that a number on the wire stands for, if any.
    pub open spec fn of_number(number: u32) -> Option<StatusCode> {
        if number == 0 {
            Some(StatusCode::Okay)
        } else if number == 1 {
            Some(StatusCode::Eof)
        } else if number == 2 {
            Some(StatusCode::NoSuchFile)
        } else if number == 3 {
            Some(StatusCode::PermissionDenied)
        } else if number == 4 {
            Some(StatusCode::Failure)
        } else if number == 5 {
            Some(StatusCode::BadMessage)
        } else if number == 6 {
            Some(StatusCode::NoConnection)
        } else if number == 7 {
            Some(StatusCode::ConnectionLost)
        } else if number == 8 {
            Some(StatusCode::OpUnsupported)
        } else if number == 9 {
            Some(StatusCode::InvalidHandle)
        } else {
            None
        }
    }

    /// The words that go with the code. They say what happened and nothing of
    /// how the server is built.
    pub open spec fn text(self) -> Seq<char> {
        match self {
            StatusCode::Okay => "Success"@,
            StatusCode::Eof => "End of file"@,
            StatusCode::NoSuchFile => "No such file"@,
            StatusCode::PermissionDenied => "Permission denied"@,
            StatusCode::Failure => "Failure"@,
            StatusCode::BadMessage => "Bad message"@,
            StatusCode::NoConnection => "No connection"@,
            StatusCode::ConnectionLost => "Connection lost"@,
            StatusCode::OpUnsupported => "Operation unsupported"@,
            StatusCode::InvalidHandle => "Invalid handle"@,
        }
    }

    /// The number of the code on the wire.
    pub fn code(&self) -> (number: u32)
        ensures
            number == self.number(),
    {
        match self {
            StatusCode::Okay => 0,
            StatusCode::Eof => 1,
            StatusCode::NoSuchFile => 2,
            StatusCode::PermissionDenied => 3,
            StatusCode::Failure => 4,
            StatusCode::BadMessage => 5,
            StatusCode::NoConnection => 6,
            StatusCode::ConnectionLost => 7,
            StatusCode::OpUnsupported => 8,
            StatusCode::InvalidHandle => 9,
        }
    }

    /// The code that a number on the wire stands for, if any.
    pub fn from_code(number: u32) -> (code: Option<StatusCode>)
        ensures
            code == StatusCode::of_number(number),
    {
        match number {
            0 => Some(StatusCode::Okay),
            1 => Some(StatusCode::Eof),
            2 => Some(StatusCode::NoSuchFile),
            3 => Some(StatusCode::PermissionDenied),
            4 => Some(StatusCode::Failure),
            5 => Some(StatusCode::BadMessage),
            6 => Some(StatusCode::NoConnection),
            7 => Some(StatusCode::ConnectionLost),
            8 => Some(StatusCode::OpUnsupported),
            9 => Some(StatusCode::InvalidHandle),
            _ => None,
        }
    }

    /// The words that go with the code.
    pub fn message(&self) -> (text: String)
        ensures
            text@ == self.text(),
    {
        match self {
            StatusCode::Okay => "Success".to_owned(),
            StatusCode::Eof => "End of file".to_owned(),
            StatusCode::NoSuchFile => "No such file".to_owned(),
            StatusCode::PermissionDenied => "Permission denied".to_owned(),
            StatusCode::Failure => "Failure".to_owned(),
            StatusCode::BadMessage => "Bad message".to_owned(),
            StatusCode::NoConnection => "No connection".to_owned(),
            StatusCode::ConnectionLost => "Connection lost".to_owned(),
            StatusCode::OpUnsupported => "Operation unsupported".to_owned(),
            StatusCode::InvalidHandle => "Invalid handle".to_owned(),
        }
    }

    /// The words of every code are plain ASCII and few: they fit the wire with
    /// room to spare.
    pub proof fn lemma_text_is_short(self)
        ensures
            is_ascii_chars(self.text()),
            encode_utf8(self.text()).len() == self.text().len(),
            self.text().len() <= 21,
    {
        reveal_strlit("Success");
        reveal_strlit("End of file");
        reveal_strlit("No such file");
        reveal_strlit("Permission denied");
        reveal_strlit("Failure");
        reveal_strlit("Bad message");
        reveal_strlit("No connection");
        reveal_strlit("Connection lost");
        reveal_strlit("Operation unsupported");
        reveal_strlit("Invalid handle");
        assert(is_ascii_chars(self.text()));
        is_ascii_chars_encode_utf8(self.text());
    }

    /// A number written for a code stands for that code.
    pub proof fn lemma_number_round_trip(self)
        ensures
            StatusCode::of_number(self.number()) == Some(self),
    {
    }
}

/// How a request ended: a code, and words for a person to read. On the wire a
/// language tag follows the words; it is always empty.
#[derive(Debug, PartialEq)]
pub struct Status {
    pub id: u32,
    pub status_code: StatusCode,
    pub error_message: String,
}

impl Status {
    /// Reads a `Status` payload: the request id, the code, the words, and a
    /// language tag, which is read and dropped. The number of the code must
    /// stand for one.
    pub open spec fn take(s: Seq<u8>) -> (Option<(u32, StatusCode, Seq<char>)>, Seq<u8>) {
        match Status::take_fields(s) {
            (Some((id, number, message)), rest) => match StatusCode::of_number(number) {
                Some(code) => (Some((id, code, message)), rest),
                None => (None, rest),
            },
            (None, rest) => (None, rest),
        }
    }

    /// A `Status` payload on the wire.
    pub open spec fn to_wire(id: u32, code: StatusCode, message: Seq<char>) -> Seq<u8> {
        Status::fields_to_wire(id, code.number(), message)
    }

    /// Whether the words are short enough for the wire.
    pub open spec fn encodable(&self) -> bool {
        fits_u32(encode_utf8(self.error_message@).len())
    }

    /// The payload on the wire.
    pub open spec fn wire(&self) -> Seq<u8> {
        Status::to_wire(self.id, self.status_code, self.error_message@)
    }

    /// The fields of a `Status` payload on the wire, with the code as a
    /// number.
    pub open spec fn fields_to_wire(id: u32, number: u32, message: Seq<char>) -> Seq<u8> {
        u32_to_be(id) + u32_to_be(number) + string_to_wire(message) + string_to_wire(
            Seq::<char>::empty(),
        )
    }

    /// Reads the fields of a `Status` payload, with the code as a number.
    pub open spec fn take_fields(s: Seq<u8>) -> (Option<(u32, u32, Seq<char>)>, Seq<u8>) {
        match take_u32(s) {
            (None, rest) => (None, rest),
            (Some(id), rest) => match take_u32(rest) {
                (None, rest) => (None, rest),
                (Some(number), rest) => match take_string(rest) {
                    (None, rest) => (None, rest),
                    (Some(message), rest) => match take_string(rest) {
                        (None, rest) => (None, rest),
                        (Some(_), rest) => (Some((id, number, message)), rest),
                    },
                },
            },
        }
    }

    /// The fields of a `Status` payload in front of anything are read back,
    /// and the rest is left.
    pub proof fn lemma_take_fields(id: u32, number: u32, message: Seq<char>, rest: Seq<u8>)
        requires
            fits_u32(encode_utf8(message).len()),
        ensures
            Status::take_fields(Status::fields_to_wire(id, number, message) + rest) == (
                Some((id, number, message)),
                rest,
            ),
    {
        let empty = Seq::<char>::empty();
        let tail3 = string_to_wire(empty) + rest;
        let tail2 = string_to_wire(message) + tail3;
        let tail1 = u32_to_be(number) + tail2;
        assert(Status::fields_to_wire(id, number, message) + rest =~= u32_to_be(id) + tail1);
        lemma_take_u32(id, tail1);
        lemma_take_u32(number, tail2);
        lemma_take_string(message, tail3);
        lemma_empty_string_to_wire();
        lemma_take_string(empty, rest);
    }

    /// A `Status` payload in front of anything is read back, and the rest is
    /// left.
    pub proof fn lemma_take(id: u32, code: StatusCode, message: Seq<char>, rest: Seq<u8>)
        requires
            fits_u32(encode_utf8(message).len()),
        ensures
            Status::take(Status::to_wire(id, code, message) + rest) == (
                Some((id, code, message)),
                rest,
            ),
    {
        Status::lemma_take_fields(id, code.number(), message, rest);
        code.lemma_number_round_trip();
    }

    /// The status for `code`, with the words that go with the code.
    pub fn new(id: u32, status_code: StatusCode) -> (status: Status)
        ensures
            status.id == id,
            status.status_code == status_code,
            status.error_message@ == status_code.text(),
    {
        Status { id, status_code, error_message: status_code.message() }
    }

    /// Reads a `Status` payload from the front of `item`; what follows it is
    /// ignored.
    pub fn try_from(item: &[u8]) -> (r: Result<Status, Error>)
        ensures
            match r {
                Ok(status) => Status::take(item@).0 == Some(
                    (status.id, status.status_code, status.error_message@),
                ),
                Err(e) => e == Error::BadMessage && Status::take(item@).0.is_none(),
            },
    {
        let mut bytes = bytes_copy_from_slice(item);
        let id = try_get_u32(&mut bytes)?;
        let number = try_get_u32(&mut bytes)?;
        let error_message = try_get_string(&mut bytes)?;
        let _language_tag = try_get_string(&mut bytes)?;
        let status_code = match StatusCode::from_code(number) {
            Some(code) => code,
            None => {
                return Err(Error::BadMessage);
            },
        };
        Ok(Status { id, status_code, error_message })
    }

    /// Why bytes are not taken for a status: bytes that hold no status
    /// payload are a bad message, and a status payload is a failure, since a
    /// status is what the server says and nothing that it is told.
    pub open spec fn refusal(s: Seq<u8>) -> Error {
        if Status::take(s).0.is_some() {
            Error::Failure
        } else {
            Error::BadMessage
        }
    }

    /// Refuses the bytes, whatever they hold: the server takes no status
    /// from a client.
    pub fn parse_bytes(byte: &[u8]) -> (r: Result<Status, Error>)
        ensures
            r == Err::<Status, Error>(Status::refusal(byte@)),
    {
        let _status = Status::try_from(byte)?;
        Err(Error::Failure)
    }

    /// Lays out the payload, unless the words are too long for the wire.
    pub fn payload(&self) -> (r: Result<Vec<u8>, Error>)
        ensures
            match r {
                Ok(payload) => self.encodable() && payload@ == self.wire(),
                Err(e) => e == Error::Failure && !self.encodable(),
            },
    {
        let mut payload: Vec<u8> = Vec::new();
        put_u32(&mut payload, self.id);
        put_u32(&mut payload, self.status_code.code());
        try_put_str(&mut payload, self.error_message.as_str())?;
        put_u32(&mut payload, 0);
        proof {
            lemma_empty_string_to_wire();
        }
        assert(payload@ =~= self.wire());
        Ok(payload)
    }
}

} // verus!
