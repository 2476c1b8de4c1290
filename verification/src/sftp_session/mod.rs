//! The session engine: one session for one authorized connection.

pub mod laws;
pub mod listing;
pub mod model;

use self::model::{invalid_request, resolved, ExchangeView, SessionView, StepView, PAGE_SIZE};
use crate::error::Error;
use crate::handle_id::{parse_handle_name, render_handle};
use crate::handle_table::{strings_view, HandleState, HandleTable};
use crate::protocol::request::open::{SSH_FXF_READ, SSH_FXF_WRITE};
use crate::protocol::request::realpath::Realpath;
use crate::protocol::request::{Request, RequestView};
use crate::protocol::response::attrs::Attrs;
use crate::protocol::response::data::Data;
use crate::protocol::response::handle::Handle;
use crate::protocol::response::name::{File, Name};
use crate::protocol::response::status::StatusCode;
use crate::protocol::response::version::{Version, SERVER_VERSION};
use crate::protocol::response::{Response, ResponseView};
use crate::storage::{StorageCall, StorageCallView, StorageOutcome};
use crate::try_buf::{buf_remaining, bytes_clone};
use vstd::prelude::*;

verus! {

/// The next move in handling a request.
#[derive(Debug, PartialEq)]
pub enum Step {
    /// The answer is ready.
    Respond(Response),
    /// Storage has to do this first; what comes of it goes to `complete`.
    Call(StorageCall),
}

impl View for Step {
    type V = StepView;

    open spec fn view(&self) -> StepView {
        match self {
            Step::Respond(response) => StepView::Respond(response@),
            Step::Call(call) => StepView::Call(call@),
        }
    }
}

/// What the session does with the bytes of one request.
#[derive(Debug, PartialEq)]
pub enum Exchange {
    /// These bytes go back to the client.
    Reply(Vec<u8>),
    /// Storage has to do this first. What comes of it goes to `resume`.
    Call(StorageCall),
}

impl View for Exchange {
    type V = ExchangeView;

    open spec fn view(&self) -> ExchangeView {
        match self {
            Exchange::Reply(bytes) => ExchangeView::Reply(bytes@),
            Exchange::Call(call) => ExchangeView::Call(call@),
        }
    }
}

/// The calls that finish with each of `streams`, in their order.
pub open spec fn close_calls(streams: Seq<Seq<char>>) -> Seq<StorageCallView> {
    streams.map_values(|stream: Seq<char>| StorageCallView::CloseStream { stream })
}

/// The plain values of a list of calls.
pub open spec fn calls_view(calls: Seq<StorageCall>) -> Seq<StorageCallView> {
    calls.map_values(|call: StorageCall| call@)
}

/// The plain value of a request that may be missing.
pub open spec fn pending_view(pending: Option<Request>) -> Option<RequestView> {
    match pending {
        Some(request) => Some(request@),
        None => None,
    }
}

/// The plain value of a step that may have failed.
pub open spec fn step_view(r: Result<Step, Error>) -> Result<StepView, Error> {
    match r {
        Ok(step) => Ok(step@),
        Err(e) => Err(e),
    }
}

/// The plain value of a response that may have failed.
pub open spec fn response_view(r: Result<Response, Error>) -> Result<ResponseView, Error> {
    match r {
        Ok(response) => Ok(response@),
        Err(e) => Err(e),
    }
}

/// The plain value of an exchange that may have failed.
pub open spec fn exchange_view(r: Result<Exchange, Error>) -> Result<ExchangeView, Error> {
    match r {
        Ok(exchange) => Ok(exchange@),
        Err(e) => Err(e),
    }
}

/// The plain value of bytes that may be missing.
pub open spec fn bytes_view(r: Result<Vec<u8>, Error>) -> Result<Seq<u8>, Error> {
    match r {
        Ok(bytes) => Ok(bytes@),
        Err(e) => Err(e),
    }
}

/// The state of one authorized connection: whose it is, what it has open, and
/// the request that is with storage, if one is. The user is fixed when the
/// session is made.
#[derive(Debug)]
pub struct SftpSession {
    user: String,
    number: u64,
    handles: HandleTable,
    pending: Option<Request>,
}

impl View for SftpSession {
    type V = SessionView;

    closed spec fn view(&self) -> SessionView {
        SessionView {
            user: self.user@,
            number: self.number,
            handles: self.handles@,
            pending: pending_view(self.pending),
        }
    }
}

impl SftpSession {
    /// A session for `user`, with nothing open. `number` tells the session
    /// from the others of the server; it goes into the name of every handle.
    pub fn new(user: String, number: u64) -> (session: SftpSession)
        ensures
            session@ == SessionView::new(user@, number),
            session@.wf(),
    {
        SftpSession { user, number, handles: HandleTable::new(), pending: None }
    }

    /// The user whose session this is.
    pub fn user(&self) -> (user: &String)
        ensures
            user@ == self@.user,
    {
        &self.user
    }

    /// Whether the session is free to take up a request.
    pub fn is_idle(&self) -> (idle: bool)
        ensures
            idle == self@.idle(),
    {
        self.pending.is_none()
    }

    /// How many handles are open.
    pub fn open_handles(&self) -> (n: usize)
        ensures
            n == self@.handles.entries.len(),
    {
        self.handles.len()
    }

    /// The number of the open handle that `handle` names, if it names one.
    fn resolve(&self, handle: &String) -> (number: Option<u64>)
        ensures
            number == self@.resolve(handle@),
    {
        match parse_handle_name(handle.as_str()) {
            Some((session, number)) => {
                if session == self.number && self.handles.get(number).is_some() {
                    Some(number)
                } else {
                    None
                }
            },
            None => None,
        }
    }

    /// What is open under the name `handle`. A name that is malformed, of
    /// another session, or of nothing that is open, is no such handle.
    pub fn find(&self, handle: &String) -> (r: Result<&HandleState, Error>)
        ensures
            match r {
                Ok(state) => self@.lookup(handle@) == Some(state@),
                Err(e) => e == Error::NoSuchHandle && self@.lookup(handle@).is_none(),
            },
    {
        match self.lookup(handle) {
            Some(state) => Ok(state),
            None => Err(Error::NoSuchHandle),
        }
    }

    /// What is open under the name `handle`, if anything.
    fn lookup(&self, handle: &String) -> (state: Option<&HandleState>)
        ensures
            match state {
                Some(s) => self@.lookup(handle@) == Some(s@),
                None => self@.lookup(handle@).is_none(),
            },
    {
        match self.resolve(handle) {
            Some(number) => self.handles.get(number),
            None => None,
        }
    }

    /// Binds `state` to a new handle and answers with its name.
    fn bind(&mut self, id: u32, state: HandleState) -> (response: Response)
        ensures
            (final(self)@, response@) == old(self)@.bind(id, state@),
    {
        match self.handles.open(state) {
            Some(number) => Response::Handle(
                Handle { id, handle: render_handle(self.number, number) },
            ),
            None => Response::failure(id, Error::Failure),
        }
    }

    /// The first move on `Open`.
    fn begin_open(&self, id: u32, path: &String, flags: u32) -> (step: Step)
        ensures
            step@ == self@.begin_open(id, path@, flags),
    {
        if self.handles.is_full() {
            Step::Respond(Response::failure(id, Error::Failure))
        } else if flags & SSH_FXF_WRITE != 0 {
            Step::Call(StorageCall::OpenWrite { path: path.clone() })
        } else if flags & SSH_FXF_READ != 0 {
            Step::Call(StorageCall::OpenRead { path: path.clone() })
        } else {
            Step::Respond(Response::failure(id, Error::Failure))
        }
    }

    /// The first move on `Close`.
    fn begin_close(&mut self, id: u32, handle: &String) -> (step: Step)
        ensures
            (final(self)@, step@) == old(self)@.begin_close(id, handle@),
    {
        let number = match self.resolve(handle) {
            Some(number) => number,
            None => {
                return Step::Respond(Response::failure(id, Error::NoSuchHandle));
            },
        };
        match self.handles.close(number) {
            Some(HandleState::ReadStream { stream, .. }) => Step::Call(
                StorageCall::CloseStream { stream },
            ),
            Some(HandleState::WriteStream { stream, .. }) => Step::Call(
                StorageCall::CloseStream { stream },
            ),
            Some(HandleState::DirListing { .. }) => Step::Respond(
                Response::status(id, StatusCode::Okay),
            ),
            None => Step::Respond(Response::failure(id, Error::NoSuchHandle)),
        }
    }

    /// The first move on `Read`.
    fn begin_read(&self, id: u32, handle: &String, offset: u64, length: u32) -> (step: Step)
        ensures
            step@ == self@.begin_read(id, handle@, offset, length),
    {
        match self.lookup(handle) {
            Some(HandleState::ReadStream { stream, .. }) => Step::Call(
                StorageCall::ReadData { stream: stream.clone(), offset, length },
            ),
            _ => Step::Respond(Response::failure(id, Error::NoSuchHandle)),
        }
    }

    /// The first move on `Write`.
    fn begin_write(&self, id: u32, handle: &String, offset: u64, data: &bytes::Bytes) -> (step:
        Step)
        ensures
            step@ == self@.begin_write(id, handle@, offset, crate::try_buf::contents(*data)),
    {
        match self.lookup(handle) {
            Some(HandleState::WriteStream { stream, written, .. }) => {
                if appends(*written, offset, buf_remaining(data)) {
                    Step::Call(
                        StorageCall::WriteData { stream: stream.clone(), data: bytes_clone(data) },
                    )
                } else {
                    Step::Respond(Response::failure(id, Error::Failure))
                }
            },
            _ => Step::Respond(Response::failure(id, Error::NoSuchHandle)),
        }
    }

    /// The first move on `Fstat`.
    fn begin_fstat(&self, id: u32, handle: &String) -> (step: Step)
        ensures
            step@ == self@.begin_fstat(id, handle@),
    {
        match self.lookup(handle) {
            Some(HandleState::ReadStream { path, .. }) => Step::Call(
                StorageCall::Metadata { path: path.clone() },
            ),
            Some(HandleState::WriteStream { path, .. }) => Step::Call(
                StorageCall::Metadata { path: path.clone() },
            ),
            Some(HandleState::DirListing { prefix, .. }) => Step::Call(
                StorageCall::Metadata { path: prefix.clone() },
            ),
            None => Step::Respond(Response::failure(id, Error::NoSuchHandle)),
        }
    }

    /// The first move on `Readdir`.
    fn begin_readdir(&self, id: u32, handle: &String) -> (step: Step)
        ensures
            step@ == self@.begin_readdir(id, handle@),
    {
        match self.lookup(handle) {
            Some(HandleState::DirListing { prefix, continuation_token }) => {
                let token = match continuation_token {
                    Some(token) => Some(token.clone()),
                    None => None,
                };
                Step::Call(
                    StorageCall::ListPrefix {
                        prefix: prefix.clone(),
                        continuation_token: token,
                        max_results: PAGE_SIZE,
                    },
                )
            },
            _ => Step::Respond(Response::failure(id, Error::NoSuchHandle)),
        }
    }

    /// The first move on `Realpath`.
    fn begin_realpath(request: &Realpath) -> (step: Step)
        ensures
            step@ == SessionView::begin_realpath(request.id, request.path@),
    {
        if request.is_well_formed() {
            let entry = File {
                name: request.path.clone(),
                size: 0,
                is_directory: true,
                permissions: 0,
                modified: 0,
            };
            let mut files: Vec<File> = Vec::new();
            files.push(entry);
            assert(crate::protocol::response::name::files_view(files@) =~= seq![
                resolved(request.path@),
            ]);
            Step::Respond(Response::Name(Name { id: request.id, files }))
        } else {
            Step::Respond(Response::failure(request.id, Error::BadMessage))
        }
    }

    /// The first move on a request.
    fn begin(&mut self, request: &Request) -> (step: Step)
        ensures
            (final(self)@, step@) == old(self)@.begin(request@),
    {
        match request {
            Request::Init(_) => Step::Respond(
                Response::Version(Version { version: SERVER_VERSION }),
            ),
            Request::Open(r) => self.begin_open(r.id, &r.path, r.flags),
            Request::Close(r) => self.begin_close(r.id, &r.handle),
            Request::Read(r) => self.begin_read(r.id, &r.handle, r.offset, r.length),
            Request::Write(r) => self.begin_write(r.id, &r.handle, r.offset, &r.data),
            Request::Lstat(r) => Step::Call(StorageCall::Metadata { path: r.path.clone() }),
            Request::Fstat(r) => self.begin_fstat(r.id, &r.handle),
            Request::Setstat(r) => Step::Respond(
                Response::failure(r.id, Error::Unimplemented),
            ),
            Request::Fsetstat(r) => Step::Respond(
                Response::failure(r.id, Error::Unimplemented),
            ),
            Request::Opendir(r) => {
                let state = HandleState::DirListing {
                    prefix: r.path.clone(),
                    continuation_token: None,
                };
                Step::Respond(self.bind(r.id, state))
            },
            Request::Readdir(r) => self.begin_readdir(r.id, &r.handle),
            Request::Remove(r) => Step::Call(StorageCall::RemoveFile { path: r.path.clone() }),
            Request::Mkdir(r) => Step::Call(StorageCall::CreateDir { path: r.path.clone() }),
            Request::Rmdir(r) => Step::Call(StorageCall::RemoveDir { path: r.path.clone() }),
            Request::Realpath(r) => SftpSession::begin_realpath(r),
            Request::Stat(r) => Step::Call(StorageCall::Metadata { path: r.path.clone() }),
            Request::Rename(r) => Step::Call(
                StorageCall::Rename { old_path: r.old_path.clone(), new_path: r.new_path.clone() },
            ),
            Request::Symlink(r) => Step::Respond(
                Response::failure(r.id, Error::Unimplemented),
            ),
            Request::Extended(r) => Step::Respond(
                Response::failure(r.id, Error::Unimplemented),
            ),
        }
    }

    /// The answer where storage did not hand back what the request needed.
    fn unexpected(id: u32, outcome: &StorageOutcome) -> (response: Response)
        ensures
            response@ == self::model::unexpected(id, outcome@),
    {
        match outcome {
            StorageOutcome::Failed(kind) => Response::failure(
                id,
                Error::StorageFailure { kind: *kind },
            ),
            _ => Response::failure(id, Error::Failure),
        }
    }

    /// The second move on `Open`.
    fn complete_open(&mut self, id: u32, path: &String, flags: u32, outcome: StorageOutcome) -> (response:
        Response)
        ensures
            (final(self)@, response@) == old(self)@.complete_open(id, path@, flags, outcome@),
    {
        match outcome {
            StorageOutcome::Stream(stream) => {
                if flags & SSH_FXF_WRITE != 0 {
                    self.bind(
                        id,
                        HandleState::WriteStream { stream, path: path.clone(), written: 0 },
                    )
                } else if flags & SSH_FXF_READ != 0 {
                    self.bind(id, HandleState::ReadStream { stream, path: path.clone() })
                } else {
                    Response::failure(id, Error::Failure)
                }
            },
            other => SftpSession::unexpected(id, &other),
        }
    }

    /// The second move on `Read`.
    fn complete_read(id: u32, outcome: StorageOutcome) -> (response: Response)
        ensures
            response@ == SessionView::complete_read(id, outcome@),
    {
        match outcome {
            StorageOutcome::Data(data) => {
                if data.len() == 0 {
                    Response::status(id, StatusCode::Eof)
                } else {
                    Response::Data(Data { id, data })
                }
            },
            other => SftpSession::unexpected(id, &other),
        }
    }

    /// The second move on `Write`.
    fn complete_write(
        &mut self,
        id: u32,
        handle: &String,
        offset: u64,
        data: &bytes::Bytes,
        outcome: StorageOutcome,
    ) -> (response: Response)
        ensures
            (final(self)@, response@) == old(self)@.complete_write(
                id,
                handle@,
                offset,
                crate::try_buf::contents(*data),
                outcome@,
            ),
    {
        match outcome {
            StorageOutcome::Done => {},
            other => {
                return SftpSession::unexpected(id, &other);
            },
        }
        let number = match self.resolve(handle) {
            Some(number) => number,
            None => {
                return Response::failure(id, Error::NoSuchHandle);
            },
        };
        let len = buf_remaining(data);
        let moved = match self.handles.get(number) {
            Some(HandleState::WriteStream { stream, path, written }) => {
                if appends(*written, offset, len) {
                    Some(
                        HandleState::WriteStream {
                            stream: stream.clone(),
                            path: path.clone(),
                            written: *written + len as u64,
                        },
                    )
                } else {
                    return Response::failure(id, Error::Failure);
                }
            },
            _ => None,
        };
        match moved {
            Some(state) => {
                self.handles.update(number, state);
                Response::status(id, StatusCode::Okay)
            },
            None => Response::failure(id, Error::NoSuchHandle),
        }
    }

    /// The second move on `Readdir`.
    fn complete_readdir(&mut self, id: u32, handle: &String, outcome: StorageOutcome) -> (response:
        Response)
        ensures
            (final(self)@, response@) == old(self)@.complete_readdir(id, handle@, outcome@),
    {
        let (entries, next_token) = match outcome {
            StorageOutcome::Page { entries, next_token } => (entries, next_token),
            other => {
                return SftpSession::unexpected(id, &other);
            },
        };
        let number = match self.resolve(handle) {
            Some(number) => number,
            None => {
                return Response::failure(id, Error::NoSuchHandle);
            },
        };
        let prefix = match self.handles.get(number) {
            Some(HandleState::DirListing { prefix, .. }) => prefix.clone(),
            _ => {
                return Response::failure(id, Error::NoSuchHandle);
            },
        };
        let at_end = entries.len() == 0 && next_token.is_none();
        self.handles.update(number, HandleState::DirListing { prefix, continuation_token: next_token });
        if at_end {
            Response::status(id, StatusCode::Eof)
        } else {
            Response::Name(Name { id, files: entries })
        }
    }

    /// The second move of a request that asks storage for metadata.
    fn complete_stat(id: u32, outcome: StorageOutcome) -> (response: Response)
        ensures
            response@ == SessionView::complete_stat(id, outcome@),
    {
        match outcome {
            StorageOutcome::Metadata(file) => Response::Attrs(Attrs { id, file }),
            other => SftpSession::unexpected(id, &other),
        }
    }

    /// The second move of a request that only needs storage to do something.
    fn complete_done(id: u32, outcome: StorageOutcome) -> (response: Response)
        ensures
            response@ == SessionView::complete_done(id, outcome@),
    {
        match outcome {
            StorageOutcome::Done => Response::status(id, StatusCode::Okay),
            other => SftpSession::unexpected(id, &other),
        }
    }

    /// The second move on a request.
    fn finish(&mut self, request: &Request, outcome: StorageOutcome) -> (response: Response)
        ensures
            (final(self)@, response@) == old(self)@.complete(request@, outcome@),
    {
        match request {
            Request::Open(r) => self.complete_open(r.id, &r.path, r.flags, outcome),
            Request::Close(r) => SftpSession::complete_done(r.id, outcome),
            Request::Read(r) => SftpSession::complete_read(r.id, outcome),
            Request::Write(r) => self.complete_write(r.id, &r.handle, r.offset, &r.data, outcome),
            Request::Lstat(r) => SftpSession::complete_stat(r.id, outcome),
            Request::Fstat(r) => SftpSession::complete_stat(r.id, outcome),
            Request::Readdir(r) => self.complete_readdir(r.id, &r.handle, outcome),
            Request::Remove(r) => SftpSession::complete_done(r.id, outcome),
            Request::Mkdir(r) => SftpSession::complete_done(r.id, outcome),
            Request::Rmdir(r) => SftpSession::complete_done(r.id, outcome),
            Request::Stat(r) => SftpSession::complete_stat(r.id, outcome),
            Request::Rename(r) => SftpSession::complete_done(r.id, outcome),
            Request::Init(_) => Response::failure(0, Error::Failure),
            Request::Setstat(r) => Response::failure(r.id, Error::Failure),
            Request::Fsetstat(r) => Response::failure(r.id, Error::Failure),
            Request::Opendir(r) => Response::failure(r.id, Error::Failure),
            Request::Realpath(r) => Response::failure(r.id, Error::Failure),
            Request::Symlink(r) => Response::failure(r.id, Error::Failure),
            Request::Extended(r) => Response::failure(r.id, Error::Failure),
        }
    }

    /// The answer to bytes that could not be read as a request.
    pub fn build_invalid_request_message_response(error: Error) -> (response: Response)
        ensures
            response@ == invalid_request(error),
    {
        Response::failure(0, error)
    }

    /// Takes up a request: either answers it at once, or names the operation
    /// that storage has to do before `complete` can answer it. A session
    /// with a request at storage takes no other.
    pub fn handle_request(&mut self, request: Request) -> (r: Result<Step, Error>)
        ensures
            (final(self)@, step_view(r)) == old(self)@.take_up(request@),
            old(self)@.wf() ==> final(self)@.wf(),
    {
        if self.pending.is_some() {
            return Err(Error::Fatal);
        }
        let step = self.begin(&request);
        match step {
            Step::Respond(response) => Ok(Step::Respond(response)),
            Step::Call(call) => {
                self.pending = Some(request);
                Ok(Step::Call(call))
            },
        }
    }

    /// Finishes the request that `handle_request` sent to storage: takes
    /// what came of the operation and gives the answer.
    pub fn complete(&mut self, outcome: StorageOutcome) -> (r: Result<Response, Error>)
        ensures
            (final(self)@, response_view(r)) == old(self)@.finish(outcome@),
            old(self)@.wf() ==> final(self)@.wf(),
    {
        match self.pending.take() {
            Some(request) => Ok(self.finish(&request, outcome)),
            None => Err(Error::Fatal),
        }
    }

    /// Takes up the raw bytes of a request: either gives the bytes of the
    /// answer, or names the operation that storage has to do before `resume`
    /// can give them.
    pub fn receive(&mut self, raw: &[u8]) -> (r: Result<Exchange, Error>)
        ensures
            (final(self)@, exchange_view(r)) == old(self)@.receive(raw@),
            old(self)@.wf() ==> final(self)@.wf(),
    {
        if self.pending.is_some() {
            return Err(Error::Fatal);
        }
        let request = match Request::try_from(raw) {
            Ok(request) => request,
            Err(error) => {
                return Ok(
                    Exchange::Reply(
                        SftpSession::build_invalid_request_message_response(error).to_bytes(),
                    ),
                );
            },
        };
        match self.handle_request(request) {
            Ok(Step::Respond(response)) => Ok(Exchange::Reply(response.to_bytes())),
            Ok(Step::Call(call)) => Ok(Exchange::Call(call)),
            Err(error) => Err(error),
        }
    }

    /// Finishes the request that `receive` sent to storage: takes what came
    /// of the operation and gives the bytes of the answer.
    pub fn resume(&mut self, outcome: StorageOutcome) -> (r: Result<Vec<u8>, Error>)
        ensures
            (final(self)@, bytes_view(r)) == old(self)@.resume(outcome@),
            old(self)@.wf() ==> final(self)@.wf(),
    {
        match self.complete(outcome) {
            Ok(response) => Ok(response.to_bytes()),
            Err(error) => Err(error),
        }
    }

    /// Ends the session: every handle leaves the table, what was with
    /// storage is forgotten, and for every stream that was open comes the
    /// call that finishes with it, in the order of the handles' numbers.
    pub fn release_all(&mut self) -> (calls: Vec<StorageCall>)
        ensures
            final(self)@ == old(self)@.released(),
            final(self)@.wf(),
            calls_view(calls@) == close_calls(
                old(self)@.handles.streams_below(old(self)@.handles.next as nat),
            ),
    {
        self.pending = None;
        let mut streams = self.handles.drain();
        let ghost names = strings_view(streams@);
        let mut calls: Vec<StorageCall> = Vec::new();
        let mut i: usize = 0;
        while i < streams.len()
            invariant
                i <= streams@.len(),
                names == strings_view(streams@),
                calls@.len() == i,
                forall|j: int| 0 <= j < i ==> (#[trigger] calls@[j])@ == close_calls(names)[j],
            decreases streams@.len() - i,
        {
            calls.push(StorageCall::CloseStream { stream: streams[i].clone() });
            i += 1;
        }
        assert(calls_view(calls@) =~= close_calls(names));
        calls
    }
}

/// Tells whether a write of `len` bytes at `offset` carries on where the
/// stream stands.
fn appends(written: u64, offset: u64, len: usize) -> (ok: bool)
    ensures
        ok == SessionView::appends(written, offset, len as nat),
{
    offset == written && len as u64 <= u64::MAX - written
}

} // verus!
