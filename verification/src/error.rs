//! Errors of the vhost-user protocol.

use vstd::prelude::*;

verus! {

/// What went wrong in an input or output operation.
#[derive(Debug, PartialEq, Eq)]
pub enum IoCause {
    /// The operating system's error number.
    Errno(i32),
    /// The peer closed the connection.
    UnexpectedEof,
    /// Something that has no error number, in words.
    Other(String),
}

/// An operation that is refused in the present state.
#[derive(Clone, Copy, Debug, PartialEq, Eq, Structural)]
pub enum Refusal {
    BackendRequestFdAlreadySent,
    DuplicateLogMapping,
    InboundMigrationFdAlreadySet,
    OutboundMigrationFdAlreadySet,
}

/// Why a message or a connection was given up.
#[derive(Debug, PartialEq, Eq)]
pub enum Error {
    /// A parameter is out of range.
    InvalidParam,
    /// The operation is refused in the present state.
    InvalidOperation(Refusal),
    /// A message has a wrong format, flag or content.
    InvalidMessage,
    /// Too many or too few file descriptors are attached.
    IncorrectFds,
    /// The socket failed.
    SocketError(IoCause),
    /// The peer closed the socket.
    SocketBroken(IoCause),
    /// The backend is not in a state to go on.
    BackendInternalError,
    /// The peer asked for a feature that is not supported.
    FeatureMismatch,
    /// The handler of a request failed.
    ReqHandlerError(IoCause),
}

/// The words for a refusal.
pub open spec fn refusal_words(refusal: Refusal) -> Seq<char> {
    match refusal {
        Refusal::BackendRequestFdAlreadySent => "Backend request FD already sent"@,
        Refusal::DuplicateLogMapping => "Duplicate log mapping"@,
        Refusal::InboundMigrationFdAlreadySet => "Inbound migration FD already set"@,
        Refusal::OutboundMigrationFdAlreadySet => "Outbound migration FD already set"@,
    }
}

impl Refusal {
    /// Says in words what is refused.
    pub fn message(self) -> (words: &'static str)
        ensures
            words@ == refusal_words(self),
    {
        match self {
            Refusal::BackendRequestFdAlreadySent => "Backend request FD already sent",
            Refusal::DuplicateLogMapping => "Duplicate log mapping",
            Refusal::InboundMigrationFdAlreadySet => "Inbound migration FD already set",
            Refusal::OutboundMigrationFdAlreadySet => "Outbound migration FD already set",
        }
    }
}

} // verus!
