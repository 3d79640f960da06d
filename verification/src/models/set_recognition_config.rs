//! The mid-session configuration-update control message.

use vstd::prelude::*;
use crate::models::transcription_config::TranscriptionConfig;

verus! {

/// Asks the server to switch to a new transcription configuration.
#[derive(Clone, Debug, PartialEq)]
pub struct SetRecognitionConfig {
    pub message: Message,
    pub transcription_config: TranscriptionConfig,
}

impl SetRecognitionConfig {
    pub fn new(message: Message, transcription_config: TranscriptionConfig) -> (r:
        SetRecognitionConfig)
        ensures
            r.message == message,
            r.transcription_config == transcription_config,
    {
        SetRecognitionConfig { message, transcription_config }
    }
}

/// The discriminant of the configuration-update message.
#[derive(Clone, Copy, Debug, Eq, PartialEq, Structural, Ord, PartialOrd, Hash)]
pub enum Message {
    SetRecognitionConfig,
}

impl Default for Message {
    fn default() -> (r: Message)
        ensures
            r == Message::SetRecognitionConfig,
    {
        Message::SetRecognitionConfig
    }
}

} // verus!
