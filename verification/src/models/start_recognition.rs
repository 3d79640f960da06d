//! The session-start control message.

use vstd::prelude::*;
use crate::models::audio_format::AudioFormat;
use crate::models::transcription_config::{TranscriptionConfig, TranslationConfig};

verus! {

/// The control message that opens a recognition session, carrying the
/// audio format and the transcription (and optional translation) options.
#[derive(Clone, Debug, PartialEq)]
pub struct StartRecognition {
    pub audio_format: AudioFormat,
    pub message: Message,
    pub transcription_config: TranscriptionConfig,
    pub translation_config: Option<TranslationConfig>,
}

impl StartRecognition {
    pub fn new(
        audio_format: AudioFormat,
        message: Message,
        transcription_config: TranscriptionConfig,
    ) -> (r: StartRecognition)
        ensures
            r.audio_format == audio_format,
            r.message == message,
            r.transcription_config == transcription_config,
            r.translation_config is None,
    {
        StartRecognition { audio_format, message, transcription_config, translation_config: None }
    }
}

/// The discriminant of the session-start message.
#[derive(Clone, Copy, Debug, Eq, PartialEq, Structural, Ord, PartialOrd, Hash)]
pub enum Message {
    StartRecognition,
}

impl Default for Message {
    fn default() -> (r: Message)
        ensures
            r == Message::StartRecognition,
    {
        Message::StartRecognition
    }
}

} // verus!
