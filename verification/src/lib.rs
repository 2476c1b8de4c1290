//! An SFTP front end for object storage: the message codec, the table of open
//! handles, and the per-connection session engine.
//!
//! The library decides; it does not wait. Whatever needs the network or the
//! storage backend is named as a value and left to the caller, who hands the
//! outcome back.

pub mod config;
pub mod error;
pub mod handle_id;
pub mod handle_table;
pub mod protocol;
pub mod sftp_session;
pub mod storage;
pub mod try_buf;

use crate::config::{DrayConfig, DrayConfigView};
use crate::error::{Error, StorageErrorKind};
use crate::handle_table::strings_view;
use crate::protocol::request::round_trip::lemma_decode_encode;
use crate::protocol::request::{decode, Request, RequestView};
use crate::sftp_session::laws::lemma_one_at_a_time;
use crate::sftp_session::model::{invalid_request, ExchangeView, SessionView, StepView};
use crate::sftp_session::{
    bytes_view, calls_view, close_calls, exchange_view, Exchange, SftpSession,
};
use crate::storage::{StorageCall, StorageCallView, StorageOutcome, StorageOutcomeView};
use vstd::prelude::*;

verus! {

/// The verdict on an attempt to log in.
#[derive(Clone, Copy, Debug, PartialEq, Eq, Structural)]
pub enum Auth {
    Reject,
    Accept,
}

/// The server, and at the same time the state of one of its connections: the
/// server makes one of these for each connection that comes in, as a copy of
/// itself with a number of its own.
#[derive(Debug)]
pub struct DraySshServer {
    dray_config: DrayConfig,
    connections: u64,
    number: u64,
    sftp_session: Option<SftpSession>,
}

/// The state of a connection as plain values.
pub struct ServerView {
    /// The settings.
    pub config: DrayConfigView,
    /// How many connections this one has made states for.
    pub connections: u64,
    /// The number of this connection.
    pub number: u64,
    /// The session, once a user has logged in.
    pub session: Option<SessionView>,
}

/// The plain value of a session that may be missing.
pub open spec fn session_view(session: Option<SftpSession>) -> Option<SessionView> {
    match session {
        Some(s) => Some(s@),
        None => None,
    }
}

impl View for DraySshServer {
    type V = ServerView;

    closed spec fn view(&self) -> ServerView {
        ServerView {
            config: self.dray_config@,
            connections: self.connections,
            number: self.number,
            session: session_view(self.sftp_session),
        }
    }
}

impl ServerView {
    /// A state whose session, if it has one, has a well-formed table.
    pub open spec fn wf(self) -> bool {
        self.session matches Some(session) ==> session.wf()
    }

    /// The state with another session.
    pub open spec fn with_session(self, session: Option<SessionView>) -> ServerView {
        ServerView {
            config: self.config,
            connections: self.connections,
            number: self.number,
            session,
        }
    }

    /// The state of the connection that comes in next: the same settings, the
    /// next number, nobody logged in.
    pub open spec fn handler(self) -> ServerView {
        ServerView { config: self.config, connections: 0, number: self.connections, session: None }
    }

    /// The state after a connection has come in.
    pub open spec fn accepted(self) -> ServerView {
        ServerView {
            config: self.config,
            connections: (self.connections + 1) as u64,
            number: self.number,
            session: self.session,
        }
    }

    /// Whether `fingerprint` is among the keys that `user` may log in with.
    pub open spec fn authorized(keys: Seq<Seq<char>>, fingerprint: Seq<char>) -> bool {
        keys.contains(fingerprint)
    }

    /// What an attempt to log in comes to. A key that is among the user's
    /// keys is accepted, and the user gets a new session; any other key is
    /// rejected and nothing changes. Where the keys could not be looked up,
    /// the attempt fails with the error of the lookup.
    pub open spec fn auth_publickey(
        self,
        user: Seq<char>,
        lookup: Result<Seq<Seq<char>>, StorageErrorKind>,
        fingerprint: Seq<char>,
    ) -> (ServerView, Result<Auth, Error>) {
        match lookup {
            Err(kind) => (self, Err(Error::StorageFailure { kind })),
            Ok(keys) => if ServerView::authorized(keys, fingerprint) {
                (
                    self.with_session(Some(SessionView::new(user, self.number))),
                    Ok(Auth::Accept),
                )
            } else {
                (self, Ok(Auth::Reject))
            },
        }
    }

    /// What bytes from the client come to. With a user logged in they go to
    /// the session. With nobody logged in, bytes that are no request are
    /// answered as such, and a request is fatal.
    pub open spec fn data(self, raw: Seq<u8>) -> (ServerView, Result<ExchangeView, Error>) {
        match self.session {
            Some(session) => {
                let (after, exchange) = session.receive(raw);
                (self.with_session(Some(after)), exchange)
            },
            None => match decode(raw) {
                Err(error) => (self, Ok(ExchangeView::Reply(invalid_request(error).wire()))),
                Ok(_) => (self, Err(Error::Fatal)),
            },
        }
    }

    /// What the outcome of an operation on storage comes to: the bytes of
    /// the answer, or a fatal error where nobody is logged in.
    pub open spec fn resume(self, outcome: StorageOutcomeView) -> (
        ServerView,
        Result<Seq<u8>, Error>,
    ) {
        match self.session {
            None => (self, Err(Error::Fatal)),
            Some(session) => {
                let (after, bytes) = session.resume(outcome);
                (self.with_session(Some(after)), bytes)
            },
        }
    }

    /// The calls that let go of everything the session has open.
    pub open spec fn release(self) -> Seq<StorageCallView> {
        match self.session {
            None => Seq::empty(),
            Some(session) => close_calls(
                session.handles.streams_below(session.handles.next as nat),
            ),
        }
    }
}

/// A user of whom storage knows no key is rejected whatever key is shown,
/// and nothing changes: to the client, an unknown user and a wrong key look
/// alike.
pub proof fn lemma_no_keys_no_entry(server: ServerView, user: Seq<char>, fingerprint: Seq<char>)
    ensures
        server.auth_publickey(user, Ok(Seq::empty()), fingerprint) == (
            server,
            Ok::<Auth, Error>(Auth::Reject),
        ),
{
}

/// Two connections that one server has made states for have different
/// numbers, so the handles of their sessions have different names.
pub proof fn lemma_connections_differ(server: ServerView)
    requires
        server.connections < u64::MAX,
    ensures
        server.handler().number != server.accepted().handler().number,
{
}

/// What a request on the wire comes to on a connection with a free session:
/// one whole exchange of the session on that request. Where the session
/// answers at once, `data` gives the answer's bytes; where storage has to
/// act, `data` names the call and `resume` gives the answer's bytes. Either
/// way the session is afterwards what the exchange leaves, and free again.
pub proof fn lemma_data_is_an_exchange(
    server: ServerView,
    request: RequestView,
    outcome: StorageOutcomeView,
)
    requires
        server.session matches Some(session) && session.idle(),
        request.encodable(),
        request.decodable(),
    ensures
        ({
            let session = server.session.unwrap();
            let (after, response) = session.exchange(request, outcome);
            let (taken, first) = server.data(request.encode());
            match session.begin(request).1 {
                StepView::Respond(_) => {
                    &&& first == Ok::<ExchangeView, Error>(ExchangeView::Reply(response.wire()))
                    &&& taken == server.with_session(Some(after))
                },
                StepView::Call(call) => {
                    &&& first == Ok::<ExchangeView, Error>(ExchangeView::Call(call))
                    &&& taken.resume(outcome) == (
                        server.with_session(Some(after)),
                        Ok::<Seq<u8>, Error>(response.wire()),
                    )
                },
            }
        }),
        server.session.unwrap().exchange(request, outcome).0.idle(),
{
    let session = server.session.unwrap();
    lemma_decode_encode(request);
    lemma_one_at_a_time(session, request, request, outcome);
}

/// The plain value of a lookup of keys.
pub open spec fn lookup_view(lookup: Result<Vec<String>, StorageErrorKind>) -> Result<
    Seq<Seq<char>>,
    StorageErrorKind,
> {
    match lookup {
        Ok(keys) => Ok(strings_view(keys@)),
        Err(kind) => Err(kind),
    }
}

/// The name of the one subsystem that the server offers.
pub open spec fn sftp_subsystem() -> Seq<char> {
    "sftp"@
}

/// Tells whether `fingerprint` is among `keys`.
fn contains_key(keys: &Vec<String>, fingerprint: &String) -> (found: bool)
    ensures
        found == ServerView::authorized(strings_view(keys@), fingerprint@),
{
    let mut i: usize = 0;
    while i < keys.len()
        invariant
            i <= keys@.len(),
            forall|j: int| 0 <= j < i ==> strings_view(keys@)[j] != fingerprint@,
        decreases keys@.len() - i,
    {
        if keys[i] == *fingerprint {
            assert(strings_view(keys@)[i as int] == fingerprint@);
            return true;
        }
        i += 1;
    }
    false
}

impl DraySshServer {
    /// The server with its settings, before any connection.
    pub fn new(dray_config: DrayConfig) -> (server: DraySshServer)
        ensures
            server@ == (ServerView {
                config: dray_config@,
                connections: 0,
                number: 0,
                session: None,
            }),
            server@.wf(),
    {
        DraySshServer { dray_config, connections: 0, number: 0, sftp_session: None }
    }

    /// The settings.
    pub fn config(&self) -> (config: &DrayConfig)
        ensures
            config@ == self@.config,
    {
        &self.dray_config
    }

    /// Whether a user is logged in on this connection.
    pub fn has_session(&self) -> (logged_in: bool)
        ensures
            logged_in == self@.session.is_some(),
    {
        self.sftp_session.is_some()
    }

    /// Makes the state for a connection that comes in: a copy of the
    /// settings, a number that no other connection of this server has, and
    /// nobody logged in. When the numbers have run out, no state is made.
    pub fn accept(&mut self) -> (handler: Option<DraySshServer>)
        ensures
            match handler {
                Some(h) => old(self)@.connections < u64::MAX && h@ == old(self)@.handler()
                    && h@.wf() && final(self)@ == old(self)@.accepted(),
                None => old(self)@.connections == u64::MAX && final(self)@ == old(self)@,
            },
            old(self)@.wf() ==> final(self)@.wf(),
    {
        if self.connections == u64::MAX {
            return None;
        }
        let handler = DraySshServer {
            dray_config: self.dray_config.duplicate(),
            connections: 0,
            number: self.connections,
            sftp_session: None,
        };
        self.connections = self.connections + 1;
        Some(handler)
    }

    /// A session for `user` on this connection, with nothing open. Whoever
    /// asks for one must have made sure that the user is who they say.
    pub fn create_session(&self, user: String) -> (session: SftpSession)
        ensures
            session@ == SessionView::new(user@, self@.number),
            session@.wf(),
    {
        SftpSession::new(user, self.number)
    }

    /// Decides on an attempt to log in with a public key. `lookup` is what
    /// storage gave as the fingerprints of the keys of `user`, `fingerprint`
    /// that of the key that was shown.
    pub fn auth_publickey(
        &mut self,
        user: String,
        lookup: Result<Vec<String>, StorageErrorKind>,
        fingerprint: &String,
    ) -> (verdict: Result<Auth, Error>)
        ensures
            (final(self)@, verdict) == old(self)@.auth_publickey(
                user@,
                lookup_view(lookup),
                fingerprint@,
            ),
            old(self)@.wf() ==> final(self)@.wf(),
    {
        let authorized_keys = match lookup {
            Ok(authorized_keys) => authorized_keys,
            Err(kind) => {
                return Err(Error::StorageFailure { kind });
            },
        };
        if contains_key(&authorized_keys, fingerprint) {
            self.sftp_session = Some(self.create_session(user));
            Ok(Auth::Accept)
        } else {
            Ok(Auth::Reject)
        }
    }

    /// Decides on a request for a subsystem: only `sftp` is offered.
    pub fn subsystem_request(&self, name: &str) -> (granted: bool)
        ensures
            granted == (name@ == sftp_subsystem()),
    {
        name.to_owned() == "sftp".to_owned()
    }

    /// Takes up bytes from the client.
    pub fn data(&mut self, data: &[u8]) -> (r: Result<Exchange, Error>)
        ensures
            (final(self)@, exchange_view(r)) == old(self)@.data(data@),
            old(self)@.wf() ==> final(self)@.wf(),
    {
        match &mut self.sftp_session {
            Some(session) => session.receive(data),
            None => match Request::try_from(data) {
                Ok(_) => Err(Error::Fatal),
                Err(error) => Ok(
                    Exchange::Reply(
                        SftpSession::build_invalid_request_message_response(error).to_bytes(),
                    ),
                ),
            },
        }
    }

    /// Takes up what came of an operation on storage.
    pub fn resume(&mut self, outcome: StorageOutcome) -> (r: Result<Vec<u8>, Error>)
        ensures
            (final(self)@, bytes_view(r)) == old(self)@.resume(outcome@),
            old(self)@.wf() ==> final(self)@.wf(),
    {
        match &mut self.sftp_session {
            Some(session) => session.resume(outcome),
            None => Err(Error::Fatal),
        }
    }

    /// Ends the connection: the session is gone, and for every stream that it
    /// had open comes the call that finishes with it.
    pub fn disconnect(&mut self) -> (calls: Vec<StorageCall>)
        ensures
            final(self)@ == old(self)@.with_session(None),
            final(self)@.wf(),
            calls_view(calls@) == old(self)@.release(),
    {
        let calls = match &mut self.sftp_session {
            Some(session) => session.release_all(),
            None => {
                let calls: Vec<StorageCall> = Vec::new();
                assert(calls_view(calls@) =~= Seq::<StorageCallView>::empty());
                calls
            },
        };
        self.sftp_session = None;
        calls
    }
}

} // verus!
