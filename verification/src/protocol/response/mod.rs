//! Responses: what the server can answer, and how each is laid out on the wire.

pub mod attrs;
pub mod data;
pub mod handle;
pub mod name;
pub mod status;
pub mod version;

use self::attrs::Attrs;
use self::data::Data;
use self::handle::Handle;
use self::name::{files_view, FileView, Name};
use self::status::{Status, StatusCode};
use self::version::Version;
use super::request::id_string::id_string_to_wire;
use super::{frame, frame_message, frameable};
use crate::error::Error;
use crate::try_buf::{fits_u32, u32_to_be};
use vstd::prelude::*;
use vstd::utf8::encode_utf8;

verus! {

// The opcodes of the responses, in the numbering of the protocol.
pub const SSH_FXP_VERSION: u8 = 2;

pub const SSH_FXP_STATUS: u8 = 101;

pub const SSH_FXP_HANDLE: u8 = 102;

pub const SSH_FXP_DATA: u8 = 103;

pub const SSH_FXP_NAME: u8 = 104;

pub const SSH_FXP_ATTRS: u8 = 105;

/// An answer from the server. Every answer but `Version` repeats the id of the
/// request that it answers.
#[derive(Debug, PartialEq)]
pub enum Response {
    Version(Version),
    Status(Status),
    Handle(Handle),
    Data(Data),
    Name(Name),
    Attrs(Attrs),
}

/// What a response says, as plain values.
pub enum ResponseView {
    Version { version: u32 },
    Status { id: u32, code: StatusCode, message: Seq<char> },
    Handle { id: u32, handle: Seq<char> },
    Data { id: u32, data: Seq<u8> },
    Name { id: u32, files: Seq<FileView> },
    Attrs { id: u32, file: FileView },
}

impl View for Response {
    type V = ResponseView;

    open spec fn view(&self) -> ResponseView {
        match self {
            Response::Version(r) => ResponseView::Version { version: r.version },
            Response::Status(r) => ResponseView::Status {
                id: r.id,
                code: r.status_code,
                message: r.error_message@,
            },
            Response::Handle(r) => ResponseView::Handle { id: r.id, handle: r.handle@ },
            Response::Data(r) => ResponseView::Data { id: r.id, data: r.data@ },
            Response::Name(r) => ResponseView::Name { id: r.id, files: files_view(r.files@) },
            Response::Attrs(r) => ResponseView::Attrs { id: r.id, file: r.file@ },
        }
    }
}

impl ResponseView {
    /// The status for `code` in answer to request `id`, with the words that go
    /// with the code.
    pub open spec fn status(id: u32, code: StatusCode) -> ResponseView {
        ResponseView::Status { id, code, message: code.text() }
    }

    /// The status that tells of `error` in answer to request `id`: the code
    /// that the fixed table gives for the error, and the words of the code.
    pub open spec fn failure(id: u32, error: Error) -> ResponseView {
        ResponseView::status(id, error.status())
    }

    /// The opcode that announces this kind of response.
    pub open spec fn opcode(self) -> u8 {
        match self {
            ResponseView::Version { .. } => SSH_FXP_VERSION,
            ResponseView::Status { .. } => SSH_FXP_STATUS,
            ResponseView::Handle { .. } => SSH_FXP_HANDLE,
            ResponseView::Data { .. } => SSH_FXP_DATA,
            ResponseView::Name { .. } => SSH_FXP_NAME,
            ResponseView::Attrs { .. } => SSH_FXP_ATTRS,
        }
    }

    /// Whether every string, blob and list of the response is short enough
    /// for its 32-bit length.
    pub open spec fn fields_fit(self) -> bool {
        match self {
            ResponseView::Version { .. } => true,
            ResponseView::Status { message, .. } => fits_u32(encode_utf8(message).len()),
            ResponseView::Handle { handle, .. } => fits_u32(encode_utf8(handle).len()),
            ResponseView::Data { data, .. } => fits_u32(data.len()),
            ResponseView::Name { files, .. } => Name::files_encodable(files),
            ResponseView::Attrs { .. } => true,
        }
    }

    /// The payload of the response on the wire.
    pub open spec fn payload(self) -> Seq<u8> {
        match self {
            ResponseView::Version { version } => u32_to_be(version),
            ResponseView::Status { id, code, message } => Status::to_wire(id, code, message),
            ResponseView::Handle { id, handle } => id_string_to_wire(id, handle),
            ResponseView::Data { id, data } => Data::to_wire(id, data),
            ResponseView::Name { id, files } => Name::to_wire(id, files),
            ResponseView::Attrs { id, file } => u32_to_be(id) + file.attrs_to_wire(),
        }
    }

    /// Whether the response can be written out: its fields fit their lengths
    /// and its payload fits a frame.
    pub open spec fn encodable(self) -> bool {
        self.fields_fit() && frameable(self.payload())
    }

    /// The response on the wire: its payload in a frame under its opcode.
    pub open spec fn encode(self) -> Seq<u8>
        recommends
            self.encodable(),
    {
        frame(self.opcode(), self.payload())
    }

    /// The id of the request that the response answers; zero for `Version`,
    /// which answers a request without one.
    pub open spec fn id(self) -> u32 {
        match self {
            ResponseView::Version { .. } => 0,
            ResponseView::Status { id, .. } => id,
            ResponseView::Handle { id, .. } => id,
            ResponseView::Data { id, .. } => id,
            ResponseView::Name { id, .. } => id,
            ResponseView::Attrs { id, .. } => id,
        }
    }

    /// What goes to the client for this response: the response on the wire
    /// or, where it is too long to be written out, a failure in its place.
    pub open spec fn wire(self) -> Seq<u8> {
        if self.encodable() {
            self.encode()
        } else {
            ResponseView::failure(self.id(), Error::Failure).encode()
        }
    }

    /// A status with the words of its code can always be written out.
    pub proof fn lemma_status_encodable(id: u32, code: StatusCode)
        ensures
            ResponseView::status(id, code).encodable(),
    {
        code.lemma_text_is_short();
        crate::try_buf::lemma_empty_string_to_wire();
    }
}

impl Response {
    /// The status for `code` in answer to request `id`.
    pub fn status(id: u32, code: StatusCode) -> (response: Response)
        ensures
            response@ == ResponseView::status(id, code),
    {
        Response::Status(Status::new(id, code))
    }

    /// The status that tells of `error` in answer to request `id`.
    pub fn failure(id: u32, error: Error) -> (response: Response)
        ensures
            response@ == ResponseView::failure(id, error),
    {
        Response::status(id, error.status_code())
    }

    /// The id of the request that the response answers; zero for `Version`.
    pub fn id(&self) -> (id: u32)
        ensures
            id == self@.id(),
    {
        match self {
            Response::Version(_) => 0,
            Response::Status(r) => r.id,
            Response::Handle(r) => r.id,
            Response::Data(r) => r.id,
            Response::Name(r) => r.id,
            Response::Attrs(r) => r.id,
        }
    }

    /// The bytes that go to the client for this response: the response
    /// written out or, where it is too long for that, a failure in its place.
    pub fn to_bytes(&self) -> (bytes: Vec<u8>)
        ensures
            bytes@ == self@.wire(),
    {
        match self.encode() {
            Ok(bytes) => bytes,
            Err(_) => {
                proof {
                    ResponseView::lemma_status_encodable(self@.id(), StatusCode::Failure);
                }
                Response::failure(self.id(), Error::Failure).encode().unwrap()
            },
        }
    }

    /// Writes the response out as raw bytes, unless a field or the whole is
    /// too long for its 32-bit length.
    pub fn encode(&self) -> (r: Result<Vec<u8>, Error>)
        ensures
            match r {
                Ok(bytes) => self@.encodable() && bytes@ == self@.encode(),
                Err(e) => e == Error::Failure && !self@.encodable(),
            },
    {
        match self {
            Response::Version(r) => frame_message(SSH_FXP_VERSION, r.payload().as_slice()),
            Response::Status(r) => frame_message(SSH_FXP_STATUS, r.payload()?.as_slice()),
            Response::Handle(r) => frame_message(SSH_FXP_HANDLE, r.payload()?.as_slice()),
            Response::Data(r) => frame_message(SSH_FXP_DATA, r.payload()?.as_slice()),
            Response::Name(r) => frame_message(SSH_FXP_NAME, r.payload()?.as_slice()),
            Response::Attrs(r) => frame_message(SSH_FXP_ATTRS, r.payload().as_slice()),
        }
    }
}

} // verus!
