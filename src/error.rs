//! The kinds of failure of an RCON session.

use vstd::prelude::*;

verus! {

/// What went wrong in a session, as a closed set of kinds.
#[derive(Debug, Clone, Copy, PartialEq, Eq, Structural)]
pub enum RconError {
    /// The TCP connection could not be established.
    Connect,
    /// The server rejected the password (it answered with id `-1`).
    Auth,
    /// A declared size outside `[10, 4096]`, or too few bytes for a packet.
    Framing,
    /// The response carried an id other than the client's.
    Correlation,
    /// A command was issued on a session that is not ready.
    NotReady,
}

impl RconError {
    /// A one-line description of the error, for the diagnostic stream.
    pub fn message(&self) -> (r: String)
        ensures
            r@ == self.message_spec(),
    {
        match self {
            RconError::Connect => "could not connect to the server".to_owned(),
            RconError::Auth => "authentication failed".to_owned(),
            RconError::Framing => "invalid packet framing".to_owned(),
            RconError::Correlation => "invalid response id".to_owned(),
            RconError::NotReady => "session is not ready".to_owned(),
        }
    }

    pub open spec fn message_spec(&self) -> Seq<char> {
        match self {
            RconError::Connect => "could not connect to the server"@,
            RconError::Auth => "authentication failed"@,
            RconError::Framing => "invalid packet framing"@,
            RconError::Correlation => "invalid response id"@,
            RconError::NotReady => "session is not ready"@,
        }
    }
}

} // verus!
