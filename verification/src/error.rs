//! What can go wrong in a run.

use vstd::prelude::*;

verus! {

/// The ways a run, or one of its steps, can fail.
#[derive(Clone, Copy, Debug, PartialEq, Eq, Structural)]
pub enum Failure {
    /// None of the places searched held a configuration.
    ConfigNotFound,
    /// A configuration was found, but it does not give the four settings.
    ConfigParseError,
    /// The command line does not give exactly one message.
    UsageError,
    /// The server turned the credentials down.
    AuthenticationFailed,
    /// The server refused the request to join the room.
    RoomJoinFailed,
    /// The server refused the message.
    SendFailed,
    /// The server refused to end the session.
    LogoutFailed,
    /// The server answered with a status in the 500s.
    ServerError,
    /// No usable answer came back: the request could not be delivered, or
    /// the status was neither a success nor an error.
    TransportError,
    /// The answer was a success, but its body is not what was expected.
    DeserializeError,
}

} // verus!
