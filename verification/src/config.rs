//! Per-session configuration handed to `run`.

use vstd::prelude::*;
use crate::models::audio_format::{AudioFormat, Type};
use crate::models::transcription_config::{TranscriptionConfig, TranslationConfig};

verus! {

/// Everything the session-start control message announces: audio format,
/// transcription options, and optional translation options.
#[derive(Clone, Debug, PartialEq)]
pub struct SessionConfig {
    pub transcription_config: Option<TranscriptionConfig>,
    pub translation_config: Option<TranslationConfig>,
    pub audio_format: Option<AudioFormat>,
}

impl Default for SessionConfig {
    /// English transcription of raw audio, no translation.
    fn default() -> (r: SessionConfig)
        ensures
            r.transcription_config matches Some(t) && t.language@ == "en"@ && t.domain is None
                && t.enable_entities is None && t.enable_partials is None
                && t.output_locale is None,
            r.translation_config is None,
            r.audio_format matches Some(a) && a.encoding is None && a.sample_rate is None
                && a.type_value == Type::Raw,
    {
        SessionConfig {
            transcription_config: Some(TranscriptionConfig::new("en".to_owned())),
            translation_config: None,
            audio_format: Some(AudioFormat::default()),
        }
    }
}

} // verus!
