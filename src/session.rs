//! The decisions of an RCON session: authentication, then one command at a
//! time, each reply matched to the request by the client's id. The caller
//! owns the connection: it sends the frames that these steps hand out and
//! brings back the packets that it reads.

use crate::error::RconError;
use crate::packet::{build_packet, frame, packet_size, Packet, AUTHENTICATE, EXEC_COMMAND, MAX_PAYLOAD};
use vstd::prelude::*;
use vstd::utf8::*;

verus! {

/// The correlation id that this client puts on every request.
pub const CLIENT_ID: i32 = 0x0badc0de;

/// The id with which a server answers a rejected password.
pub const AUTH_FAILED_ID: i32 = -1;

/// Where a session stands in its lifecycle.
#[derive(Debug, Clone, Copy, PartialEq, Eq, Structural)]
pub enum SessionState {
    Disconnected,
    Connecting,
    Authenticating,
    Ready,
    Closed,
    Failed,
}

/// One session, as a state machine over its lifecycle.
pub struct RconSession {
    state: SessionState,
}

/// The frame of a request packet with the client's id.
pub open spec fn request_frame(kind: i32, payload: Seq<char>) -> Seq<u8> {
    frame(packet_size(encode_utf8(payload).len() as int) as i32, CLIENT_ID, kind, encode_utf8(payload))
}

/// The state after the reply to the password arrives (or fails to).
pub open spec fn auth_next_state(reply: Result<Packet, RconError>) -> SessionState {
    match reply {
        Ok(p) => if p.id == AUTH_FAILED_ID { SessionState::Failed } else { SessionState::Ready },
        Err(_) => SessionState::Failed,
    }
}

/// What authentication comes to, given the reply to the password.
pub open spec fn auth_outcome(reply: Result<Packet, RconError>) -> Result<(), RconError> {
    match reply {
        Ok(p) => if p.id == AUTH_FAILED_ID { Err(RconError::Auth) } else { Ok(()) },
        Err(e) => Err(e),
    }
}

/// What a command comes to, given the state and the reply that was read.
pub open spec fn exec_outcome(state: SessionState, reply: Result<Packet, RconError>) -> Result<Seq<char>, RconError> {
    if state != SessionState::Ready {
        Err(RconError::NotReady)
    } else {
        match reply {
            Ok(p) => if p.id == CLIENT_ID { Ok(p.payload@) } else { Err(RconError::Correlation) },
            Err(e) => Err(e),
        }
    }
}

/// The state after the reply to a command: a command never changes it.
pub open spec fn exec_next_state(state: SessionState, reply: Result<Packet, RconError>) -> SessionState {
    state
}

/// The view of a command's result, with the reply text as characters.
pub open spec fn result_view(r: Result<String, RconError>) -> Result<Seq<char>, RconError> {
    match r {
        Ok(s) => Ok(s@),
        Err(e) => Err(e),
    }
}

impl RconSession {
    pub closed spec fn state_spec(&self) -> SessionState {
        self.state
    }

    /// A session that has not started to connect.
    pub fn new() -> (s: RconSession)
        ensures
            s.state_spec() == SessionState::Disconnected,
    {
        RconSession { state: SessionState::Disconnected }
    }

    /// The current state.
    pub fn state(&self) -> (r: SessionState)
        ensures
            r == self.state_spec(),
    {
        self.state
    }

    /// Whether commands may be issued.
    pub fn is_ready(&self) -> (r: bool)
        ensures
            r == (self.state_spec() == SessionState::Ready),
    {
        self.state == SessionState::Ready
    }

    /// The TCP connection is being opened.
    pub fn begin_connect(&mut self)
        ensures
            old(self).state_spec() == SessionState::Disconnected ==> final(self).state_spec() == SessionState::Connecting,
            old(self).state_spec() != SessionState::Disconnected ==> final(self).state_spec() == old(self).state_spec(),
    {
        if self.state == SessionState::Disconnected {
            self.state = SessionState::Connecting;
        }
    }

    /// The TCP connection could not be opened: the session has failed.
    pub fn connect_failed(&mut self) -> (e: RconError)
        ensures
            e == RconError::Connect,
            final(self).state_spec() == SessionState::Failed,
    {
        self.state = SessionState::Failed;
        RconError::Connect
    }

    /// The connection is open: hands out the frame that carries the
    /// password, and waits for its reply.
    pub fn auth_request(&mut self, password: &str) -> (r: Result<Vec<u8>, RconError>)
        ensures
            old(self).state_spec() != SessionState::Connecting ==> {
                &&& r == Err::<Vec<u8>, RconError>(RconError::NotReady)
                &&& final(self).state_spec() == old(self).state_spec()
            },
            old(self).state_spec() == SessionState::Connecting && encode_utf8(password@).len() > MAX_PAYLOAD ==> {
                &&& r == Err::<Vec<u8>, RconError>(RconError::Framing)
                &&& final(self).state_spec() == SessionState::Failed
            },
            old(self).state_spec() == SessionState::Connecting && encode_utf8(password@).len() <= MAX_PAYLOAD ==> {
                &&& r matches Ok(b) && b@ == request_frame(AUTHENTICATE, password@)
                &&& final(self).state_spec() == SessionState::Authenticating
            },
    {
        if self.state != SessionState::Connecting {
            return Err(RconError::NotReady);
        }
        if password.as_bytes().len() > MAX_PAYLOAD {
            self.state = SessionState::Failed;
            return Err(RconError::Framing);
        }
        self.state = SessionState::Authenticating;
        Ok(build_packet(CLIENT_ID, AUTHENTICATE, password).to_bytes())
    }

    /// Takes the reply to the password. An id of `-1` means that the
    /// password was refused, whatever the type and payload; any other id
    /// means success, since servers differ on echoing the request's id.
    pub fn on_auth_reply(&mut self, reply: Result<Packet, RconError>) -> (r: Result<(), RconError>)
        requires
            old(self).state_spec() == SessionState::Authenticating,
        ensures
            r == auth_outcome(reply),
            final(self).state_spec() == auth_next_state(reply),
    {
        match reply {
            Ok(p) => {
                if p.id == AUTH_FAILED_ID {
                    self.state = SessionState::Failed;
                    Err(RconError::Auth)
                } else {
                    self.state = SessionState::Ready;
                    Ok(())
                }
            },
            Err(e) => {
                self.state = SessionState::Failed;
                Err(e)
            },
        }
    }

    /// Hands out the frame that runs `command`; the session must be ready.
    pub fn exec_request(&self, command: &str) -> (r: Result<Vec<u8>, RconError>)
        ensures
            self.state_spec() != SessionState::Ready ==> r == Err::<Vec<u8>, RconError>(RconError::NotReady),
            self.state_spec() == SessionState::Ready && encode_utf8(command@).len() > MAX_PAYLOAD
                ==> r == Err::<Vec<u8>, RconError>(RconError::Framing),
            self.state_spec() == SessionState::Ready && encode_utf8(command@).len() <= MAX_PAYLOAD
                ==> (r matches Ok(b) && b@ == request_frame(EXEC_COMMAND, command@)),
    {
        if self.state != SessionState::Ready {
            return Err(RconError::NotReady);
        }
        if command.as_bytes().len() > MAX_PAYLOAD {
            return Err(RconError::Framing);
        }
        Ok(build_packet(CLIENT_ID, EXEC_COMMAND, command).to_bytes())
    }

    /// Takes the reply to a command and gives the reply text. A reply with
    /// another id than the client's is a correlation error; the session
    /// stays ready, as it does after a framing error.
    pub fn on_exec_reply(&mut self, reply: Result<Packet, RconError>) -> (r: Result<String, RconError>)
        ensures
            result_view(r) == exec_outcome(old(self).state_spec(), reply),
            final(self).state_spec() == exec_next_state(old(self).state_spec(), reply),
    {
        if self.state != SessionState::Ready {
            return Err(RconError::NotReady);
        }
        match reply {
            Ok(p) => {
                if p.id == CLIENT_ID {
                    Ok(p.payload)
                } else {
                    Err(RconError::Correlation)
                }
            },
            Err(e) => Err(e),
        }
    }

    /// The connection is gone or was closed by the caller.
    pub fn close(&mut self)
        ensures
            final(self).state_spec() == SessionState::Closed,
    {
        self.state = SessionState::Closed;
    }
}

/// A reply with the wrong id fails the command with a correlation error and
/// leaves the session ready, so that the next reply with the client's id
/// gives its text.
pub proof fn lemma_correlation_keeps_session(wrong: Packet, right: Packet)
    requires
        wrong.id != CLIENT_ID,
        right.id == CLIENT_ID,
    ensures
        exec_outcome(SessionState::Ready, Ok(wrong)) == Err::<Seq<char>, RconError>(RconError::Correlation),
        exec_next_state(SessionState::Ready, Ok(wrong)) == SessionState::Ready,
        exec_outcome(exec_next_state(SessionState::Ready, Ok(wrong)), Ok(right))
            == Ok::<Seq<char>, RconError>(right.payload@),
{
}

/// A reply to the password with id `-1` fails authentication, whatever its
/// type and payload, and the session never becomes ready.
pub proof fn lemma_auth_refused(reply: Packet)
    requires
        reply.id == AUTH_FAILED_ID,
    ensures
        auth_outcome(Ok(reply)) == Err::<(), RconError>(RconError::Auth),
        auth_next_state(Ok(reply)) == SessionState::Failed,
        exec_outcome(auth_next_state(Ok(reply)), Ok(reply)) == Err::<Seq<char>, RconError>(RconError::NotReady),
{
}

} // verus!
