//! Requests: what a client can ask for, and how each is laid out on the wire.

pub mod extended;
pub mod fsetstat;
pub mod handle;
pub mod id_string;
pub mod init;
pub mod mkdir;
pub mod open;
pub mod opendir;
pub mod path;
pub mod read;
pub mod realpath;
pub mod rename;
pub mod rmdir;
pub mod round_trip;
pub mod setstat;
pub mod symlink;
pub mod write;

use self::extended::Extended;
use self::fsetstat::Fsetstat;
use self::handle::Handle;
use self::id_string::{id_string_to_wire, take_id_string};
use self::init::Init;
use self::mkdir::Mkdir;
use self::open::Open;
use self::opendir::Opendir;
use self::path::Path;
use self::read::Read;
use self::realpath::Realpath;
use self::rename::Rename;
use self::rmdir::Rmdir;
use self::setstat::Setstat;
use self::symlink::Symlink;
use self::write::Write;
use super::{frame, frame_message, frameable, split_frame, take_frame};
use crate::error::Error;
use crate::try_buf::{bytes_as_slice, contents, fits_u32, take_u32, take_u8, u32_to_be};
use bytes::Bytes;
use vstd::prelude::*;
use vstd::utf8::encode_utf8;

verus! {

// The opcodes of the requests, in the numbering of the protocol.
pub const SSH_FXP_INIT: u8 = 1;

pub const SSH_FXP_OPEN: u8 = 3;

pub const SSH_FXP_CLOSE: u8 = 4;

pub const SSH_FXP_READ: u8 = 5;

pub const SSH_FXP_WRITE: u8 = 6;

pub const SSH_FXP_LSTAT: u8 = 7;

pub const SSH_FXP_FSTAT: u8 = 8;

pub const SSH_FXP_SETSTAT: u8 = 9;

pub const SSH_FXP_FSETSTAT: u8 = 10;

pub const SSH_FXP_OPENDIR: u8 = 11;

pub const SSH_FXP_READDIR: u8 = 12;

pub const SSH_FXP_REMOVE: u8 = 13;

pub const SSH_FXP_MKDIR: u8 = 14;

pub const SSH_FXP_RMDIR: u8 = 15;

pub const SSH_FXP_REALPATH: u8 = 16;

pub const SSH_FXP_STAT: u8 = 17;

pub const SSH_FXP_RENAME: u8 = 18;

pub const SSH_FXP_SYMLINK: u8 = 20;

pub const SSH_FXP_EXTENDED: u8 = 200;

/// A request from the client. Every request but `Init` carries the id that the
/// client gave it, which the response repeats.
#[derive(Debug, PartialEq)]
pub enum Request {
    Init(Init),
    Open(Open),
    Close(Handle),
    Read(Read),
    Write(Write),
    Lstat(Path),
    Fstat(Handle),
    Setstat(Setstat),
    Fsetstat(Fsetstat),
    Opendir(Opendir),
    Readdir(Handle),
    Remove(Path),
    Mkdir(Mkdir),
    Rmdir(Rmdir),
    Realpath(Realpath),
    Stat(Path),
    Rename(Rename),
    Symlink(Symlink),
    Extended(Extended),
}

/// What a request says, as plain values.
pub enum RequestView {
    Init { version: u8 },
    Open { id: u32, path: Seq<char>, flags: u32 },
    Close { id: u32, handle: Seq<char> },
    Read { id: u32, handle: Seq<char>, offset: u64, length: u32 },
    Write { id: u32, handle: Seq<char>, offset: u64, data: Seq<u8> },
    Lstat { id: u32, path: Seq<char> },
    Fstat { id: u32, handle: Seq<char> },
    Setstat { id: u32 },
    Fsetstat { id: u32 },
    Opendir { id: u32, path: Seq<char> },
    Readdir { id: u32, handle: Seq<char> },
    Remove { id: u32, path: Seq<char> },
    Mkdir { id: u32, path: Seq<char> },
    Rmdir { id: u32, path: Seq<char> },
    Realpath { id: u32, path: Seq<char> },
    Stat { id: u32, path: Seq<char> },
    Rename { id: u32, old_path: Seq<char>, new_path: Seq<char> },
    Symlink { id: u32 },
    Extended { id: u32 },
}

impl View for Request {
    type V = RequestView;

    open spec fn view(&self) -> RequestView {
        match self {
            Request::Init(r) => RequestView::Init { version: r.version },
            Request::Open(r) => RequestView::Open { id: r.id, path: r.path@, flags: r.flags },
            Request::Close(r) => RequestView::Close { id: r.id, handle: r.handle@ },
            Request::Read(r) => RequestView::Read {
                id: r.id,
                handle: r.handle@,
                offset: r.offset,
                length: r.length,
            },
            Request::Write(r) => RequestView::Write {
                id: r.id,
                handle: r.handle@,
                offset: r.offset,
                data: contents(r.data),
            },
            Request::Lstat(r) => RequestView::Lstat { id: r.id, path: r.path@ },
            Request::Fstat(r) => RequestView::Fstat { id: r.id, handle: r.handle@ },
            Request::Setstat(r) => RequestView::Setstat { id: r.id },
            Request::Fsetstat(r) => RequestView::Fsetstat { id: r.id },
            Request::Opendir(r) => RequestView::Opendir { id: r.id, path: r.path@ },
            Request::Readdir(r) => RequestView::Readdir { id: r.id, handle: r.handle@ },
            Request::Remove(r) => RequestView::Remove { id: r.id, path: r.path@ },
            Request::Mkdir(r) => RequestView::Mkdir { id: r.id, path: r.path@ },
            Request::Rmdir(r) => RequestView::Rmdir { id: r.id, path: r.path@ },
            Request::Realpath(r) => RequestView::Realpath { id: r.id, path: r.path@ },
            Request::Stat(r) => RequestView::Stat { id: r.id, path: r.path@ },
            Request::Rename(r) => RequestView::Rename {
                id: r.id,
                old_path: r.old_path@,
                new_path: r.new_path@,
            },
            Request::Symlink(r) => RequestView::Symlink { id: r.id },
            Request::Extended(r) => RequestView::Extended { id: r.id },
        }
    }
}

impl RequestView {
    /// The opcode that announces this kind of request.
    pub open spec fn opcode(self) -> u8 {
        match self {
            RequestView::Init { .. } => SSH_FXP_INIT,
            RequestView::Open { .. } => SSH_FXP_OPEN,
            RequestView::Close { .. } => SSH_FXP_CLOSE,
            RequestView::Read { .. } => SSH_FXP_READ,
            RequestView::Write { .. } => SSH_FXP_WRITE,
            RequestView::Lstat { .. } => SSH_FXP_LSTAT,
            RequestView::Fstat { .. } => SSH_FXP_FSTAT,
            RequestView::Setstat { .. } => SSH_FXP_SETSTAT,
            RequestView::Fsetstat { .. } => SSH_FXP_FSETSTAT,
            RequestView::Opendir { .. } => SSH_FXP_OPENDIR,
            RequestView::Readdir { .. } => SSH_FXP_READDIR,
            RequestView::Remove { .. } => SSH_FXP_REMOVE,
            RequestView::Mkdir { .. } => SSH_FXP_MKDIR,
            RequestView::Rmdir { .. } => SSH_FXP_RMDIR,
            RequestView::Realpath { .. } => SSH_FXP_REALPATH,
            RequestView::Stat { .. } => SSH_FXP_STAT,
            RequestView::Rename { .. } => SSH_FXP_RENAME,
            RequestView::Symlink { .. } => SSH_FXP_SYMLINK,
            RequestView::Extended { .. } => SSH_FXP_EXTENDED,
        }
    }

    /// Whether every string and blob of the request is short enough for its
    /// 32-bit length.
    pub open spec fn fields_fit(self) -> bool {
        match self {
            RequestView::Open { path, .. } => fits_u32(encode_utf8(path).len()),
            RequestView::Close { handle, .. } => fits_u32(encode_utf8(handle).len()),
            RequestView::Read { handle, .. } => fits_u32(encode_utf8(handle).len()),
            RequestView::Write { handle, data, .. } => fits_u32(encode_utf8(handle).len())
                && fits_u32(data.len()),
            RequestView::Lstat { path, .. } => fits_u32(encode_utf8(path).len()),
            RequestView::Fstat { handle, .. } => fits_u32(encode_utf8(handle).len()),
            RequestView::Opendir { path, .. } => fits_u32(encode_utf8(path).len()),
            RequestView::Readdir { handle, .. } => fits_u32(encode_utf8(handle).len()),
            RequestView::Remove { path, .. } => fits_u32(encode_utf8(path).len()),
            RequestView::Mkdir { path, .. } => fits_u32(encode_utf8(path).len()),
            RequestView::Rmdir { path, .. } => fits_u32(encode_utf8(path).len()),
            RequestView::Realpath { path, .. } => fits_u32(encode_utf8(path).len()),
            RequestView::Stat { path, .. } => fits_u32(encode_utf8(path).len()),
            RequestView::Rename { old_path, new_path, .. } => fits_u32(
                encode_utf8(old_path).len(),
            ) && fits_u32(encode_utf8(new_path).len()),
            _ => true,
        }
    }

    /// The payload of the request on the wire.
    pub open spec fn payload(self) -> Seq<u8> {
        match self {
            RequestView::Init { version } => seq![version],
            RequestView::Open { id, path, flags } => Open::to_wire(id, path, flags),
            RequestView::Close { id, handle } => id_string_to_wire(id, handle),
            RequestView::Read { id, handle, offset, length } => Read::to_wire(
                id,
                handle,
                offset,
                length,
            ),
            RequestView::Write { id, handle, offset, data } => Write::to_wire(
                id,
                handle,
                offset,
                data,
            ),
            RequestView::Lstat { id, path } => id_string_to_wire(id, path),
            RequestView::Fstat { id, handle } => id_string_to_wire(id, handle),
            RequestView::Setstat { id } => u32_to_be(id),
            RequestView::Fsetstat { id } => u32_to_be(id),
            RequestView::Opendir { id, path } => id_string_to_wire(id, path),
            RequestView::Readdir { id, handle } => id_string_to_wire(id, handle),
            RequestView::Remove { id, path } => id_string_to_wire(id, path),
            RequestView::Mkdir { id, path } => id_string_to_wire(id, path),
            RequestView::Rmdir { id, path } => id_string_to_wire(id, path),
            RequestView::Realpath { id, path } => id_string_to_wire(id, path),
            RequestView::Stat { id, path } => id_string_to_wire(id, path),
            RequestView::Rename { id, old_path, new_path } => Rename::to_wire(
                id,
                old_path,
                new_path,
            ),
            RequestView::Symlink { id } => u32_to_be(id),
            RequestView::Extended { id } => u32_to_be(id),
        }
    }

    /// Whether the decoder reads this kind of request in. It reads all but
    /// `Fsetstat`.
    pub open spec fn decodable(self) -> bool {
        !(self is Fsetstat)
    }

    /// Whether the request can be written out: its fields fit their lengths
    /// and its payload fits a frame.
    pub open spec fn encodable(self) -> bool {
        self.fields_fit() && frameable(self.payload())
    }

    /// The request on the wire: its payload in a frame under its opcode.
    pub open spec fn encode(self) -> Seq<u8>
        recommends
            self.encodable(),
    {
        frame(self.opcode(), self.payload())
    }
}

/// Whether an opcode announces a request that this server knows.
pub open spec fn is_request_opcode(opcode: u8) -> bool {
    opcode == SSH_FXP_INIT || (SSH_FXP_OPEN <= opcode <= SSH_FXP_RENAME) || opcode
        == SSH_FXP_SYMLINK || opcode == SSH_FXP_EXTENDED
}

/// Reads the payload of a request on files: `Init`, `Open`, `Close`, `Read`,
/// `Write`, `Lstat`, `Fstat`.
pub open spec fn decode_file_request(opcode: u8, payload: Seq<u8>) -> Result<RequestView, Error> {
    if opcode == SSH_FXP_INIT {
        match take_u8(payload).0 {
            Some(version) => Ok(RequestView::Init { version }),
            None => Err(Error::BadMessage),
        }
    } else if opcode == SSH_FXP_OPEN {
        match Open::take(payload).0 {
            Some((id, path, flags)) => Ok(RequestView::Open { id, path, flags }),
            None => Err(Error::BadMessage),
        }
    } else if opcode == SSH_FXP_CLOSE {
        match take_id_string(payload).0 {
            Some((id, handle)) => Ok(RequestView::Close { id, handle }),
            None => Err(Error::BadMessage),
        }
    } else if opcode == SSH_FXP_READ {
        match Read::take(payload).0 {
            Some((id, handle, offset, length)) => Ok(
                RequestView::Read { id, handle, offset, length },
            ),
            None => Err(Error::BadMessage),
        }
    } else if opcode == SSH_FXP_WRITE {
        match Write::take(payload).0 {
            Some((id, handle, offset, data)) => Ok(RequestView::Write { id, handle, offset, data }),
            None => Err(Error::BadMessage),
        }
    } else if opcode == SSH_FXP_LSTAT {
        match take_id_string(payload).0 {
            Some((id, path)) => Ok(RequestView::Lstat { id, path }),
            None => Err(Error::BadMessage),
        }
    } else if opcode == SSH_FXP_FSTAT {
        match take_id_string(payload).0 {
            Some((id, handle)) => Ok(RequestView::Fstat { id, handle }),
            None => Err(Error::BadMessage),
        }
    } else {
        Err(Error::Unimplemented)
    }
}

/// Reads the payload of a request on attributes or directories: `Setstat`,
/// `Opendir`, `Readdir`, `Remove`, `Mkdir`, `Rmdir`. `Fsetstat` is refused:
/// no payload under its opcode is read in as a request.
pub open spec fn decode_directory_request(opcode: u8, payload: Seq<u8>) -> Result<
    RequestView,
    Error,
> {
    if opcode == SSH_FXP_SETSTAT {
        match take_u32(payload).0 {
            Some(id) => Ok(RequestView::Setstat { id }),
            None => Err(Error::BadMessage),
        }
    } else if opcode == SSH_FXP_FSETSTAT {
        Err(Fsetstat::refusal(payload))
    } else if opcode == SSH_FXP_OPENDIR {
        match take_id_string(payload).0 {
            Some((id, path)) => Ok(RequestView::Opendir { id, path }),
            None => Err(Error::BadMessage),
        }
    } else if opcode == SSH_FXP_READDIR {
        match take_id_string(payload).0 {
            Some((id, handle)) => Ok(RequestView::Readdir { id, handle }),
            None => Err(Error::BadMessage),
        }
    } else if opcode == SSH_FXP_REMOVE {
        match take_id_string(payload).0 {
            Some((id, path)) => Ok(RequestView::Remove { id, path }),
            None => Err(Error::BadMessage),
        }
    } else if opcode == SSH_FXP_MKDIR {
        match take_id_string(payload).0 {
            Some((id, path)) => Ok(RequestView::Mkdir { id, path }),
            None => Err(Error::BadMessage),
        }
    } else if opcode == SSH_FXP_RMDIR {
        match take_id_string(payload).0 {
            Some((id, path)) => Ok(RequestView::Rmdir { id, path }),
            None => Err(Error::BadMessage),
        }
    } else {
        Err(Error::Unimplemented)
    }
}

/// Reads the payload of a request on names: `Realpath`, `Stat`, `Rename`,
/// `Symlink`, `Extended`.
pub open spec fn decode_name_request(opcode: u8, payload: Seq<u8>) -> Result<RequestView, Error> {
    if opcode == SSH_FXP_REALPATH {
        match take_id_string(payload).0 {
            Some((id, path)) => Ok(RequestView::Realpath { id, path }),
            None => Err(Error::BadMessage),
        }
    } else if opcode == SSH_FXP_STAT {
        match take_id_string(payload).0 {
            Some((id, path)) => Ok(RequestView::Stat { id, path }),
            None => Err(Error::BadMessage),
        }
    } else if opcode == SSH_FXP_RENAME {
        match Rename::take(payload).0 {
            Some((id, old_path, new_path)) => Ok(RequestView::Rename { id, old_path, new_path }),
            None => Err(Error::BadMessage),
        }
    } else if opcode == SSH_FXP_SYMLINK {
        match take_u32(payload).0 {
            Some(id) => Ok(RequestView::Symlink { id }),
            None => Err(Error::BadMessage),
        }
    } else if opcode == SSH_FXP_EXTENDED {
        match take_u32(payload).0 {
            Some(id) => Ok(RequestView::Extended { id }),
            None => Err(Error::BadMessage),
        }
    } else {
        Err(Error::Unimplemented)
    }
}

/// Reads the payload that belongs to an opcode. An opcode that announces no
/// known request is unimplemented, whatever follows it; a payload that is
/// short of a field, or holds text that is not UTF-8, is a bad message. Bytes
/// after the last field are ignored.
pub open spec fn decode_payload(opcode: u8, payload: Seq<u8>) -> Result<RequestView, Error> {
    if opcode <= SSH_FXP_FSTAT {
        decode_file_request(opcode, payload)
    } else if opcode <= SSH_FXP_RMDIR {
        decode_directory_request(opcode, payload)
    } else {
        decode_name_request(opcode, payload)
    }
}

/// What a sequence of bytes means as a request. Bytes that hold no whole
/// frame are a bad message; a whole frame is read by its opcode.
pub open spec fn decode(bytes: Seq<u8>) -> Result<RequestView, Error> {
    match take_frame(bytes) {
        None => Err(Error::BadMessage),
        Some((opcode, payload)) => decode_payload(opcode, payload),
    }
}

impl Request {
    /// Reads a request on files from its payload.
    fn file_request(data_type: u8, data_payload: Bytes) -> (r: Result<Request, Error>)
        ensures
            match r {
                Ok(request) => decode_file_request(data_type, contents(data_payload)) == Ok::<
                    RequestView,
                    Error,
                >(request@),
                Err(e) => decode_file_request(data_type, contents(data_payload)) == Err::<
                    RequestView,
                    Error,
                >(e),
            },
    {
        let mut data_payload = data_payload;
        if data_type == SSH_FXP_INIT {
            Ok(Request::Init(Init::try_from(&mut data_payload)?))
        } else if data_type == SSH_FXP_OPEN {
            Ok(Request::Open(Open::try_from(&mut data_payload)?))
        } else if data_type == SSH_FXP_CLOSE {
            Ok(Request::Close(Handle::try_from(&mut data_payload)?))
        } else if data_type == SSH_FXP_READ {
            Ok(Request::Read(Read::try_from(&mut data_payload)?))
        } else if data_type == SSH_FXP_WRITE {
            Ok(Request::Write(Write::try_from(bytes_as_slice(&data_payload))?))
        } else if data_type == SSH_FXP_LSTAT {
            Ok(Request::Lstat(Path::try_from(&mut data_payload)?))
        } else if data_type == SSH_FXP_FSTAT {
            Ok(Request::Fstat(Handle::try_from(&mut data_payload)?))
        } else {
            Err(Error::Unimplemented)
        }
    }

    /// Reads a request on attributes or directories from its payload.
    fn directory_request(data_type: u8, data_payload: Bytes) -> (r: Result<Request, Error>)
        ensures
            match r {
                Ok(request) => decode_directory_request(data_type, contents(data_payload)) == Ok::<
                    RequestView,
                    Error,
                >(request@),
                Err(e) => decode_directory_request(data_type, contents(data_payload)) == Err::<
                    RequestView,
                    Error,
                >(e),
            },
    {
        let mut data_payload = data_payload;
        if data_type == SSH_FXP_SETSTAT {
            Ok(Request::Setstat(Setstat::try_from(bytes_as_slice(&data_payload))?))
        } else if data_type == SSH_FXP_FSETSTAT {
            Ok(Request::Fsetstat(Fsetstat::try_from(bytes_as_slice(&data_payload))?))
        } else if data_type == SSH_FXP_OPENDIR {
            Ok(Request::Opendir(Opendir::try_from(bytes_as_slice(&data_payload))?))
        } else if data_type == SSH_FXP_READDIR {
            Ok(Request::Readdir(Handle::try_from(&mut data_payload)?))
        } else if data_type == SSH_FXP_REMOVE {
            Ok(Request::Remove(Path::try_from(&mut data_payload)?))
        } else if data_type == SSH_FXP_MKDIR {
            Ok(Request::Mkdir(Mkdir::try_from(bytes_as_slice(&data_payload))?))
        } else if data_type == SSH_FXP_RMDIR {
            Ok(Request::Rmdir(Rmdir::try_from(bytes_as_slice(&data_payload))?))
        } else {
            Err(Error::Unimplemented)
        }
    }

    /// Reads a request on names from its payload.
    fn name_request(data_type: u8, data_payload: Bytes) -> (r: Result<Request, Error>)
        ensures
            match r {
                Ok(request) => decode_name_request(data_type, contents(data_payload)) == Ok::<
                    RequestView,
                    Error,
                >(request@),
                Err(e) => decode_name_request(data_type, contents(data_payload)) == Err::<
                    RequestView,
                    Error,
                >(e),
            },
    {
        let mut data_payload = data_payload;
        if data_type == SSH_FXP_REALPATH {
            Ok(Request::Realpath(Realpath::try_from(bytes_as_slice(&data_payload))?))
        } else if data_type == SSH_FXP_STAT {
            Ok(Request::Stat(Path::try_from(&mut data_payload)?))
        } else if data_type == SSH_FXP_RENAME {
            Ok(Request::Rename(Rename::try_from(&mut data_payload)?))
        } else if data_type == SSH_FXP_SYMLINK {
            Ok(Request::Symlink(Symlink::try_from(bytes_as_slice(&data_payload))?))
        } else if data_type == SSH_FXP_EXTENDED {
            Ok(Request::Extended(Extended::try_from(bytes_as_slice(&data_payload))?))
        } else {
            Err(Error::Unimplemented)
        }
    }

    /// Reads a request from raw bytes.
    pub fn try_from(request_bytes: &[u8]) -> (r: Result<Request, Error>)
        ensures
            match r {
                Ok(request) => decode(request_bytes@) == Ok::<RequestView, Error>(request@),
                Err(e) => decode(request_bytes@) == Err::<RequestView, Error>(e),
            },
    {
        let (data_type, data_payload) = split_frame(request_bytes)?;
        if data_type <= SSH_FXP_FSTAT {
            Request::file_request(data_type, data_payload)
        } else if data_type <= SSH_FXP_RMDIR {
            Request::directory_request(data_type, data_payload)
        } else {
            Request::name_request(data_type, data_payload)
        }
    }

    /// Writes the request out as raw bytes, unless a field or the whole is too
    /// long for its 32-bit length.
    pub fn encode(&self) -> (r: Result<Vec<u8>, Error>)
        ensures
            match r {
                Ok(bytes) => self@.encodable() && bytes@ == self@.encode(),
                Err(e) => e == Error::Failure && !self@.encodable(),
            },
    {
        match self {
            Request::Init(r) => frame_message(SSH_FXP_INIT, r.payload().as_slice()),
            Request::Open(r) => frame_message(SSH_FXP_OPEN, r.payload()?.as_slice()),
            Request::Close(r) => frame_message(SSH_FXP_CLOSE, r.payload()?.as_slice()),
            Request::Read(r) => frame_message(SSH_FXP_READ, r.payload()?.as_slice()),
            Request::Write(r) => frame_message(SSH_FXP_WRITE, r.payload()?.as_slice()),
            Request::Lstat(r) => frame_message(SSH_FXP_LSTAT, r.payload()?.as_slice()),
            Request::Fstat(r) => frame_message(SSH_FXP_FSTAT, r.payload()?.as_slice()),
            Request::Setstat(r) => frame_message(SSH_FXP_SETSTAT, r.payload().as_slice()),
            Request::Fsetstat(r) => frame_message(SSH_FXP_FSETSTAT, r.payload().as_slice()),
            Request::Opendir(r) => frame_message(SSH_FXP_OPENDIR, r.payload()?.as_slice()),
            Request::Readdir(r) => frame_message(SSH_FXP_READDIR, r.payload()?.as_slice()),
            Request::Remove(r) => frame_message(SSH_FXP_REMOVE, r.payload()?.as_slice()),
            Request::Mkdir(r) => frame_message(SSH_FXP_MKDIR, r.payload()?.as_slice()),
            Request::Rmdir(r) => frame_message(SSH_FXP_RMDIR, r.payload()?.as_slice()),
            Request::Realpath(r) => frame_message(SSH_FXP_REALPATH, r.payload()?.as_slice()),
            Request::Stat(r) => frame_message(SSH_FXP_STAT, r.payload()?.as_slice()),
            Request::Rename(r) => frame_message(SSH_FXP_RENAME, r.payload()?.as_slice()),
            Request::Symlink(r) => frame_message(SSH_FXP_SYMLINK, r.payload().as_slice()),
            Request::Extended(r) => frame_message(SSH_FXP_EXTENDED, r.payload().as_slice()),
        }
    }
}

} // verus!
