//! Transcription and translation options for a session.

use vstd::prelude::*;

verus! {

/// Options governing how the service transcribes the audio.
#[derive(Clone, Debug, PartialEq)]
pub struct TranscriptionConfig {
    pub domain: Option<String>,
    pub enable_entities: Option<bool>,
    pub enable_partials: Option<bool>,
    pub language: String,
    pub output_locale: Option<String>,
}

impl TranscriptionConfig {
    pub fn new(language: String) -> (r: TranscriptionConfig)
        ensures
            r.domain is None,
            r.enable_entities is None,
            r.enable_partials is None,
            r.language@ == language@,
            r.output_locale is None,
    {
        TranscriptionConfig {
            domain: None,
            enable_entities: None,
            enable_partials: None,
            language,
            output_locale: None,
        }
    }
}

/// Options governing live translation of the transcript.
#[derive(Clone, Debug, PartialEq)]
pub struct TranslationConfig {
    pub target_languages: Vec<String>,
    pub enable_partials: Option<bool>,
}

impl TranslationConfig {
    pub fn new(target_languages: Vec<String>) -> (r: TranslationConfig)
        ensures
            r.target_languages@ == target_languages@,
            r.enable_partials is None,
    {
        TranslationConfig { target_languages, enable_partials: None }
    }
}

impl Default for TranslationConfig {
    fn default() -> (r: TranslationConfig)
        ensures
            r.target_languages@.len() == 0,
            r.enable_partials is None,
    {
        TranslationConfig { target_languages: Vec::new(), enable_partials: None }
    }
}

} // verus!
