//! Typed models of the batch jobs API's requests and responses.

use vstd::prelude::*;

verus! {

/// The server's answer to a job submission: the id under which the job
/// can later be retrieved.
#[derive(Clone, Debug, PartialEq)]
pub struct CreateJobResponse {
    pub id: String,
}

impl CreateJobResponse {
    pub fn new(id: String) -> (r: CreateJobResponse)
        ensures
            r.id@ == id@,
    {
        CreateJobResponse { id }
    }
}

/// Which languages the service should consider when identifying the
/// spoken language.
#[derive(Clone, Debug, PartialEq)]
pub struct LanguageIdentificationConfig {
    pub expected_languages: Option<Vec<String>>,
}

impl LanguageIdentificationConfig {
    pub fn new() -> (r: LanguageIdentificationConfig)
        ensures
            r.expected_languages is None,
    {
        LanguageIdentificationConfig { expected_languages: None }
    }
}

/// One additional vocabulary entry: the written form and what it sounds
/// like.
#[derive(Clone, Debug, PartialEq)]
pub struct TranscriptionConfigAdditionalVocabInner {
    pub content: String,
    pub sounds_like: Option<Vec<String>>,
}

impl TranscriptionConfigAdditionalVocabInner {
    pub fn new(content: String) -> (r: TranscriptionConfigAdditionalVocabInner)
        ensures
            r.content@ == content@,
            r.sounds_like is None,
    {
        TranscriptionConfigAdditionalVocabInner { content, sounds_like: None }
    }
}

/// Options for aligning an existing transcript against audio.
#[derive(Clone, Debug, PartialEq)]
pub struct AlignmentConfig {
    pub language: String,
}

impl AlignmentConfig {
    pub fn new(language: String) -> (r: AlignmentConfig)
        ensures
            r.language@ == language@,
    {
        AlignmentConfig { language }
    }
}

/// One error recorded against a batch job, with its timestamp.
#[derive(Clone, Debug, PartialEq)]
pub struct JobDetailError {
    pub timestamp: String,
    pub message: String,
}

impl JobDetailError {
    pub fn new(timestamp: String, message: String) -> (r: JobDetailError)
        ensures
            r.timestamp@ == timestamp@,
            r.message@ == message@,
    {
        JobDetailError { timestamp, message }
    }
}

/// Summary of the transcript, when one was requested.
#[derive(Clone, Debug, PartialEq)]
pub struct SummarizationResult {
    pub content: Option<String>,
}

impl SummarizationResult {
    pub fn new() -> (r: SummarizationResult)
        ensures
            r.content is None,
    {
        SummarizationResult { content: None }
    }
}

} // verus!
