//! The server's error event.

use vstd::prelude::*;

verus! {

/// An error event reported by the server during a session.
#[derive(Clone, Debug, PartialEq)]
pub struct Error {
    pub code: Option<i32>,
    pub message: Message,
    pub reason: String,
    pub seq_no: Option<i32>,
    pub type_value: RHashType,
}

impl Error {
    pub fn new(message: Message, reason: String, type_value: RHashType) -> (r: Error)
        ensures
            r.code is None,
            r.message == message,
            r.reason@ == reason@,
            r.seq_no is None,
            r.type_value == type_value,
    {
        Error { code: None, message, reason, seq_no: None, type_value }
    }
}

/// The discriminant of the error event.
#[derive(Clone, Copy, Debug, Eq, PartialEq, Structural, Ord, PartialOrd, Hash)]
pub enum Message {
    Error,
}

impl Default for Message {
    fn default() -> (r: Message)
        ensures
            r == Message::Error,
    {
        Message::Error
    }
}

/// The category of a server-reported error.
#[derive(Clone, Copy, Debug, Eq, PartialEq, Structural, Ord, PartialOrd, Hash)]
pub enum RHashType {
    InvalidMessage,
    InvalidModel,
    InvalidConfig,
    InvalidAudioType,
    NotAuthorised,
    InsufficientFunds,
    NotAllowed,
    JobError,
    DataError,
    BufferError,
    ProtocolError,
    UnknownError,
}

impl Default for RHashType {
    fn default() -> (r: RHashType)
        ensures
            r == RHashType::InvalidMessage,
    {
        RHashType::InvalidMessage
    }
}

} // verus!
