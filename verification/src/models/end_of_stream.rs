//! The termination control message that closes the audio stream.

use vstd::prelude::*;

verus! {

/// Sent once per session when the audio source is exhausted or fails;
/// carries the last sequence number handed to the transport.
#[derive(Clone, Debug, PartialEq)]
pub struct EndOfStream {
    pub last_seq_no: i32,
    pub message: Message,
}

impl EndOfStream {
    pub fn new(last_seq_no: i32, message: Message) -> (r: EndOfStream)
        ensures
            r.last_seq_no == last_seq_no,
            r.message == message,
    {
        EndOfStream { last_seq_no, message }
    }
}

impl Default for EndOfStream {
    fn default() -> (r: EndOfStream)
        ensures
            r.last_seq_no == 0,
            r.message == Message::EndOfStream,
    {
        EndOfStream { last_seq_no: 0, message: Message::EndOfStream }
    }
}

/// The discriminant of the termination message.
#[derive(Clone, Copy, Debug, Eq, PartialEq, Structural, Ord, PartialOrd, Hash)]
pub enum Message {
    EndOfStream,
}

impl Default for Message {
    fn default() -> (r: Message)
        ensures
            r == Message::EndOfStream,
    {
        Message::EndOfStream
    }
}

} // verus!
