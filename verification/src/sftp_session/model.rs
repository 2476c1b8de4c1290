//! What a session does with each request, stated over plain values.
//!
//! A request is handled in at most two moves. `begin` looks at the request and
//! the table of handles and either answers at once or names the one operation
//! that it needs from storage. `complete` takes what came of that operation
//! and gives the answer. `take_up` and `finish` are the two moves as the
//! session makes them: it remembers the request that is with storage and
//! takes no other until that one is finished, so answers leave in the order
//! in which requests came.

use crate::error::Error;
use crate::handle_id::{handle_of_text, handle_text};
use crate::handle_table::{HandleStateView, HandleTableView};
use crate::protocol::request::open::{SSH_FXF_READ, SSH_FXF_WRITE};
use crate::protocol::request::realpath::well_formed_path;
use crate::protocol::request::{decode, RequestView};
use crate::protocol::response::name::FileView;
use crate::protocol::response::status::StatusCode;
use crate::protocol::response::version::SERVER_VERSION;
use crate::protocol::response::ResponseView;
use crate::storage::{StorageCallView, StorageOutcomeView};
use vstd::prelude::*;

verus! {

/// The most entries that one page of a listing is asked to hold.
pub const PAGE_SIZE: u32 = 1000;

/// A session as plain values: whose it is, its number among the sessions of
/// the server, what it has open, and the request that is with storage, if
/// one is.
pub struct SessionView {
    pub user: Seq<char>,
    pub number: u64,
    pub handles: HandleTableView,
    pub pending: Option<RequestView>,
}

/// The next move in handling a request, as plain values.
pub enum StepView {
    /// The answer is ready.
    Respond(ResponseView),
    /// Storage has to do this first.
    Call(StorageCallView),
}

/// What the session does with the bytes of one request, as plain values.
pub enum ExchangeView {
    /// These bytes go back to the client.
    Reply(Seq<u8>),
    /// Storage has to do this first.
    Call(StorageCallView),
}

/// The answer to bytes that could not be read as a request: the status of
/// the error, under the id zero, since no id could be read either.
pub open spec fn invalid_request(error: Error) -> ResponseView {
    ResponseView::failure(0, error)
}

/// Whether the flags of an `Open` ask for writing.
pub open spec fn wants_write(flags: u32) -> bool {
    flags & SSH_FXF_WRITE != 0
}

/// Whether the flags of an `Open` ask for reading.
pub open spec fn wants_read(flags: u32) -> bool {
    flags & SSH_FXF_READ != 0
}

/// The answer where storage did not hand back what the request needed: the
/// status of its failure where it failed, a plain failure for anything else.
/// Every error reaches the client as a status, by the fixed table of
/// `Error::status`.
pub open spec fn unexpected(id: u32, outcome: StorageOutcomeView) -> ResponseView {
    match outcome {
        StorageOutcomeView::Failed(kind) => ResponseView::failure(
            id,
            Error::StorageFailure { kind },
        ),
        _ => ResponseView::failure(id, Error::Failure),
    }
}

/// The one entry that answers a request to resolve `path`: the path itself,
/// unchanged, as a directory of which nothing more is known.
pub open spec fn resolved(path: Seq<char>) -> FileView {
    FileView { name: path, size: 0, is_directory: true, permissions: 0, modified: 0 }
}

impl SessionView {
    /// A session whose table is well formed.
    pub open spec fn wf(self) -> bool {
        self.handles.wf()
    }

    /// A new session: nothing is open, and no request is with storage.
    pub open spec fn new(user: Seq<char>, number: u64) -> SessionView {
        SessionView { user, number, handles: HandleTableView::empty(), pending: None }
    }

    /// The session with another table.
    pub open spec fn with_handles(self, handles: HandleTableView) -> SessionView {
        SessionView { user: self.user, number: self.number, handles, pending: self.pending }
    }

    /// The session with another request, or none, with storage.
    pub open spec fn with_pending(self, pending: Option<RequestView>) -> SessionView {
        SessionView { user: self.user, number: self.number, handles: self.handles, pending }
    }

    /// Whether the session is free to take up a request: none is with
    /// storage.
    pub open spec fn idle(self) -> bool {
        self.pending.is_none()
    }

    /// The number of the open handle that `handle` names. A name that is
    /// malformed, of another session, or of nothing that is open, names none.
    pub open spec fn resolve(self, handle: Seq<char>) -> Option<u64> {
        match handle_of_text(handle) {
            Some((session, number)) => if session == self.number
                && self.handles.entries.contains_key(number) {
                Some(number)
            } else {
                None
            },
            None => None,
        }
    }

    /// What is open under the name `handle`, if anything.
    pub open spec fn lookup(self, handle: Seq<char>) -> Option<HandleStateView> {
        match self.resolve(handle) {
            Some(number) => Some(self.handles.entries[number]),
            None => None,
        }
    }

    /// Binds `state` to a new handle and answers with its name; where the
    /// numbers have run out, nothing is bound and the answer is a failure.
    pub open spec fn bind(self, id: u32, state: HandleStateView) -> (SessionView, ResponseView) {
        if self.handles.has_room() {
            (
                self.with_handles(self.handles.open(state)),
                ResponseView::Handle { id, handle: handle_text(self.number, self.handles.next) },
            )
        } else {
            (self, ResponseView::failure(id, Error::Failure))
        }
    }

    /// `Open`: storage opens a stream, for writing where the flags ask for
    /// it, else for reading. Flags that ask for neither, and a table without
    /// room, fail at once.
    pub open spec fn begin_open(self, id: u32, path: Seq<char>, flags: u32) -> StepView {
        if !self.handles.has_room() {
            StepView::Respond(ResponseView::failure(id, Error::Failure))
        } else if wants_write(flags) {
            StepView::Call(StorageCallView::OpenWrite { path })
        } else if wants_read(flags) {
            StepView::Call(StorageCallView::OpenRead { path })
        } else {
            StepView::Respond(ResponseView::failure(id, Error::Failure))
        }
    }

    /// `Close`: the handle leaves the table for good. A listing needs nothing
    /// from storage; a stream is closed there.
    pub open spec fn begin_close(self, id: u32, handle: Seq<char>) -> (SessionView, StepView) {
        match self.resolve(handle) {
            None => (self, StepView::Respond(ResponseView::failure(id, Error::NoSuchHandle))),
            Some(number) => {
                let after = self.with_handles(self.handles.close(number));
                match self.handles.entries[number] {
                    HandleStateView::ReadStream { stream, .. } => (
                        after,
                        StepView::Call(StorageCallView::CloseStream { stream }),
                    ),
                    HandleStateView::WriteStream { stream, .. } => (
                        after,
                        StepView::Call(StorageCallView::CloseStream { stream }),
                    ),
                    HandleStateView::DirListing { .. } => (
                        after,
                        StepView::Respond(ResponseView::status(id, StatusCode::Okay)),
                    ),
                }
            },
        }
    }

    /// `Read`: storage reads from the stream behind a handle that was opened
    /// for reading.
    pub open spec fn begin_read(self, id: u32, handle: Seq<char>, offset: u64, length: u32)
        -> StepView {
        match self.lookup(handle) {
            Some(HandleStateView::ReadStream { stream, .. }) => StepView::Call(
                StorageCallView::ReadData { stream, offset, length },
            ),
            _ => StepView::Respond(ResponseView::failure(id, Error::NoSuchHandle)),
        }
    }

    /// Whether a write of `len` bytes at `offset` carries on where the stream
    /// stands: at the count of bytes written so far, and without running
    /// past what a 64-bit count can hold.
    pub open spec fn appends(written: u64, offset: u64, len: nat) -> bool {
        offset == written && written + len <= u64::MAX
    }

    /// `Write`: storage appends to the stream behind a handle that was
    /// opened for writing, if the write carries on where the stream stands.
    /// Any other write fails at once and reaches storage not at all.
    pub open spec fn begin_write(self, id: u32, handle: Seq<char>, offset: u64, data: Seq<u8>)
        -> StepView {
        match self.lookup(handle) {
            Some(HandleStateView::WriteStream { stream, written, .. }) => if SessionView::appends(
                written,
                offset,
                data.len(),
            ) {
                StepView::Call(StorageCallView::WriteData { stream, data })
            } else {
                StepView::Respond(ResponseView::failure(id, Error::Failure))
            },
            _ => StepView::Respond(ResponseView::failure(id, Error::NoSuchHandle)),
        }
    }

    /// `Fstat`: storage looks up the path that the handle was opened on.
    pub open spec fn begin_fstat(self, id: u32, handle: Seq<char>) -> StepView {
        match self.lookup(handle) {
            Some(state) => StepView::Call(StorageCallView::Metadata { path: state.path() }),
            None => StepView::Respond(ResponseView::failure(id, Error::NoSuchHandle)),
        }
    }

    /// `Opendir`: a listing is bound to a new handle, at its start. Storage
    /// is not asked.
    pub open spec fn begin_opendir(self, id: u32, path: Seq<char>) -> (SessionView, StepView) {
        let (after, response) = self.bind(
            id,
            HandleStateView::DirListing { prefix: path, continuation_token: None },
        );
        (after, StepView::Respond(response))
    }

    /// `Readdir`: storage lists the page that the stored token stands for.
    pub open spec fn begin_readdir(self, id: u32, handle: Seq<char>) -> StepView {
        match self.lookup(handle) {
            Some(HandleStateView::DirListing { prefix, continuation_token }) => StepView::Call(
                StorageCallView::ListPrefix { prefix, continuation_token, max_results: PAGE_SIZE },
            ),
            _ => StepView::Respond(ResponseView::failure(id, Error::NoSuchHandle)),
        }
    }

    /// `Realpath`: a path that can be resolved is answered with itself; any
    /// other is a bad message.
    pub open spec fn begin_realpath(id: u32, path: Seq<char>) -> StepView {
        if well_formed_path(path) {
            StepView::Respond(ResponseView::Name { id, files: seq![resolved(path)] })
        } else {
            StepView::Respond(ResponseView::failure(id, Error::BadMessage))
        }
    }

    /// The first move on a request: the session afterwards, and either the
    /// answer or the operation that storage has to do.
    pub open spec fn begin(self, request: RequestView) -> (SessionView, StepView) {
        match request {
            RequestView::Init { .. } => (
                self,
                StepView::Respond(ResponseView::Version { version: SERVER_VERSION }),
            ),
            RequestView::Open { id, path, flags } => (self, self.begin_open(id, path, flags)),
            RequestView::Close { id, handle } => self.begin_close(id, handle),
            RequestView::Read { id, handle, offset, length } => (
                self,
                self.begin_read(id, handle, offset, length),
            ),
            RequestView::Write { id, handle, offset, data } => (
                self,
                self.begin_write(id, handle, offset, data),
            ),
            RequestView::Lstat { id, path } => (
                self,
                StepView::Call(StorageCallView::Metadata { path }),
            ),
            RequestView::Fstat { id, handle } => (self, self.begin_fstat(id, handle)),
            RequestView::Setstat { id } => (
                self,
                StepView::Respond(ResponseView::failure(id, Error::Unimplemented)),
            ),
            RequestView::Fsetstat { id } => (
                self,
                StepView::Respond(ResponseView::failure(id, Error::Unimplemented)),
            ),
            RequestView::Opendir { id, path } => self.begin_opendir(id, path),
            RequestView::Readdir { id, handle } => (self, self.begin_readdir(id, handle)),
            RequestView::Remove { id, path } => (
                self,
                StepView::Call(StorageCallView::RemoveFile { path }),
            ),
            RequestView::Mkdir { id, path } => (
                self,
                StepView::Call(StorageCallView::CreateDir { path }),
            ),
            RequestView::Rmdir { id, path } => (
                self,
                StepView::Call(StorageCallView::RemoveDir { path }),
            ),
            RequestView::Realpath { id, path } => (
                self,
                SessionView::begin_realpath(id, path),
            ),
            RequestView::Stat { id, path } => (
                self,
                StepView::Call(StorageCallView::Metadata { path }),
            ),
            RequestView::Rename { id, old_path, new_path } => (
                self,
                StepView::Call(StorageCallView::Rename { old_path, new_path }),
            ),
            RequestView::Symlink { id } => (
                self,
                StepView::Respond(ResponseView::failure(id, Error::Unimplemented)),
            ),
            RequestView::Extended { id } => (
                self,
                StepView::Respond(ResponseView::failure(id, Error::Unimplemented)),
            ),
        }
    }

    /// `Open`, second move: the stream that storage opened is bound to a new
    /// handle.
    pub open spec fn complete_open(
        self,
        id: u32,
        path: Seq<char>,
        flags: u32,
        outcome: StorageOutcomeView,
    ) -> (SessionView, ResponseView) {
        match outcome {
            StorageOutcomeView::Stream(stream) => if wants_write(flags) {
                self.bind(id, HandleStateView::WriteStream { stream, path, written: 0 })
            } else if wants_read(flags) {
                self.bind(id, HandleStateView::ReadStream { stream, path })
            } else {
                (self, ResponseView::failure(id, Error::Failure))
            },
            _ => (self, unexpected(id, outcome)),
        }
    }

    /// `Read`, second move: the bytes that were read, or the end of the file
    /// where there were none.
    pub open spec fn complete_read(id: u32, outcome: StorageOutcomeView) -> ResponseView {
        match outcome {
            StorageOutcomeView::Data(data) => if data.len() == 0 {
                ResponseView::status(id, StatusCode::Eof)
            } else {
                ResponseView::Data { id, data }
            },
            _ => unexpected(id, outcome),
        }
    }

    /// `Write`, second move: the count of bytes written moves on by what
    /// storage took.
    pub open spec fn complete_write(
        self,
        id: u32,
        handle: Seq<char>,
        offset: u64,
        data: Seq<u8>,
        outcome: StorageOutcomeView,
    ) -> (SessionView, ResponseView) {
        match outcome {
            StorageOutcomeView::Done => match (self.resolve(handle), self.lookup(handle)) {
                (
                    Some(number),
                    Some(HandleStateView::WriteStream { stream, path, written }),
                ) => if SessionView::appends(written, offset, data.len()) {
                    (
                        self.with_handles(
                            self.handles.update(
                                number,
                                HandleStateView::WriteStream {
                                    stream,
                                    path,
                                    written: (written + data.len()) as u64,
                                },
                            ),
                        ),
                        ResponseView::status(id, StatusCode::Okay),
                    )
                } else {
                    (self, ResponseView::failure(id, Error::Failure))
                },
                _ => (self, ResponseView::failure(id, Error::NoSuchHandle)),
            },
            _ => (self, unexpected(id, outcome)),
        }
    }

    /// `Readdir`, second move: the token that came with the page is stored.
    /// An empty page with no token is the end of the listing; any other page
    /// is handed on.
    pub open spec fn complete_readdir(self, id: u32, handle: Seq<char>, outcome: StorageOutcomeView)
        -> (SessionView, ResponseView) {
        match outcome {
            StorageOutcomeView::Page { entries, next_token } => match (
                self.resolve(handle),
                self.lookup(handle),
            ) {
                (Some(number), Some(HandleStateView::DirListing { prefix, .. })) => (
                    self.with_handles(
                        self.handles.update(
                            number,
                            HandleStateView::DirListing { prefix, continuation_token: next_token },
                        ),
                    ),
                    if entries.len() == 0 && next_token.is_none() {
                        ResponseView::status(id, StatusCode::Eof)
                    } else {
                        ResponseView::Name { id, files: entries }
                    },
                ),
                _ => (self, ResponseView::failure(id, Error::NoSuchHandle)),
            },
            _ => (self, unexpected(id, outcome)),
        }
    }

    /// The second move of a request that asks storage for metadata.
    pub open spec fn complete_stat(id: u32, outcome: StorageOutcomeView) -> ResponseView {
        match outcome {
            StorageOutcomeView::Metadata(file) => ResponseView::Attrs { id, file },
            _ => unexpected(id, outcome),
        }
    }

    /// The second move of a request that only needs storage to do something.
    pub open spec fn complete_done(id: u32, outcome: StorageOutcomeView) -> ResponseView {
        match outcome {
            StorageOutcomeView::Done => ResponseView::status(id, StatusCode::Okay),
            _ => unexpected(id, outcome),
        }
    }

    /// One whole exchange on a request: the first move and, where that sends
    /// the request to storage, the second move on what came of it.
    pub open spec fn exchange(self, request: RequestView, outcome: StorageOutcomeView) -> (
        SessionView,
        ResponseView,
    ) {
        match self.begin(request) {
            (after, StepView::Respond(response)) => (after, response),
            (after, StepView::Call(_)) => after.complete(request, outcome),
        }
    }

    /// Taking up a request. A session takes one request at a time: while one
    /// is with storage, to hand it another is fatal and changes nothing. A
    /// free session makes the first move, and keeps the request where
    /// storage has to act.
    pub open spec fn take_up(self, request: RequestView) -> (SessionView, Result<StepView, Error>) {
        if self.pending.is_some() {
            (self, Err(Error::Fatal))
        } else {
            match self.begin(request) {
                (after, StepView::Respond(response)) => (after, Ok(StepView::Respond(response))),
                (after, StepView::Call(call)) => (
                    after.with_pending(Some(request)),
                    Ok(StepView::Call(call)),
                ),
            }
        }
    }

    /// Finishing the request that is with storage: the second move on it,
    /// after which the session is free again. Where no request is with
    /// storage, there is nothing to finish; that is fatal and changes
    /// nothing.
    pub open spec fn finish(self, outcome: StorageOutcomeView) -> (
        SessionView,
        Result<ResponseView, Error>,
    ) {
        match self.pending {
            None => (self, Err(Error::Fatal)),
            Some(request) => {
                let (after, response) = self.with_pending(None).complete(request, outcome);
                (after, Ok(response))
            },
        }
    }

    /// Taking up the raw bytes of a request. Bytes that are no request are
    /// answered with the status of what is wrong with them, and the session
    /// stays as it was.
    pub open spec fn receive(self, raw: Seq<u8>) -> (SessionView, Result<ExchangeView, Error>) {
        if self.pending.is_some() {
            (self, Err(Error::Fatal))
        } else {
            match decode(raw) {
                Err(error) => (self, Ok(ExchangeView::Reply(invalid_request(error).wire()))),
                Ok(request) => match self.take_up(request) {
                    (after, Ok(StepView::Respond(response))) => (
                        after,
                        Ok(ExchangeView::Reply(response.wire())),
                    ),
                    (after, Ok(StepView::Call(call))) => (after, Ok(ExchangeView::Call(call))),
                    (after, Err(error)) => (after, Err(error)),
                },
            }
        }
    }

    /// Finishing the request that is with storage, down to the bytes that go
    /// back to the client.
    pub open spec fn resume(self, outcome: StorageOutcomeView) -> (
        SessionView,
        Result<Seq<u8>, Error>,
    ) {
        match self.finish(outcome) {
            (after, Ok(response)) => (after, Ok(response.wire())),
            (after, Err(error)) => (after, Err(error)),
        }
    }

    /// The session after the connection has ended: nothing is open and
    /// nothing is with storage.
    pub open spec fn released(self) -> SessionView {
        self.with_handles(self.handles.clear()).with_pending(None)
    }

    /// The second move on a request: the session afterwards and the answer,
    /// for whatever came of the operation on storage. A request that `begin`
    /// answers by itself has no second move; the answer is then a failure.
    pub open spec fn complete(self, request: RequestView, outcome: StorageOutcomeView) -> (
        SessionView,
        ResponseView,
    ) {
        match request {
            RequestView::Open { id, path, flags } => self.complete_open(id, path, flags, outcome),
            RequestView::Close { id, .. } => (self, SessionView::complete_done(id, outcome)),
            RequestView::Read { id, .. } => (self, SessionView::complete_read(id, outcome)),
            RequestView::Write { id, handle, offset, data } => self.complete_write(
                id,
                handle,
                offset,
                data,
                outcome,
            ),
            RequestView::Lstat { id, .. } => (self, SessionView::complete_stat(id, outcome)),
            RequestView::Fstat { id, .. } => (self, SessionView::complete_stat(id, outcome)),
            RequestView::Readdir { id, handle } => self.complete_readdir(id, handle, outcome),
            RequestView::Remove { id, .. } => (self, SessionView::complete_done(id, outcome)),
            RequestView::Mkdir { id, .. } => (self, SessionView::complete_done(id, outcome)),
            RequestView::Rmdir { id, .. } => (self, SessionView::complete_done(id, outcome)),
            RequestView::Stat { id, .. } => (self, SessionView::complete_stat(id, outcome)),
            RequestView::Rename { id, .. } => (self, SessionView::complete_done(id, outcome)),
            RequestView::Init { .. } => (self, ResponseView::failure(0, Error::Failure)),
            RequestView::Setstat { id } => (self, ResponseView::failure(id, Error::Failure)),
            RequestView::Fsetstat { id } => (self, ResponseView::failure(id, Error::Failure)),
            RequestView::Opendir { id, .. } => (
                self,
                ResponseView::failure(id, Error::Failure),
            ),
            RequestView::Realpath { id, .. } => (
                self,
                ResponseView::failure(id, Error::Failure),
            ),
            RequestView::Symlink { id } => (self, ResponseView::failure(id, Error::Failure)),
            RequestView::Extended { id } => (self, ResponseView::failure(id, Error::Failure)),
        }
    }
}

} // verus!
