use speechmatics::batch::{default_query, delete_query, jobs_query, transcript_query};
use speechmatics::batch_models::{
    AlignmentConfig, CreateJobResponse, JobDetailError, LanguageIdentificationConfig,
    SummarizationResult, TranscriptionConfigAdditionalVocabInner,
};

fn pair(name: &str, value: &str) -> (Vec<u8>, Vec<u8>) {
    (name.as_bytes().to_vec(), value.as_bytes().to_vec())
}

#[test]
fn every_query_carries_the_client_tag() {
    assert_eq!(default_query(), vec![pair("sm-sdk", "rs-0.1.0")]);
    assert_eq!(jobs_query(None, None), vec![pair("sm-sdk", "rs-0.1.0")]);
    assert_eq!(delete_query(None), vec![pair("sm-sdk", "rs-0.1.0")]);
}

#[test]
fn jobs_query_renders_its_options() {
    assert_eq!(
        jobs_query(Some(2), None),
        vec![pair("sm-sdk", "rs-0.1.0"), pair("limit", "2")]
    );
    assert_eq!(
        jobs_query(None, Some(true)),
        vec![pair("sm-sdk", "rs-0.1.0"), pair("include_deleted", "true")]
    );
    assert_eq!(
        jobs_query(Some(-5), Some(false)),
        vec![pair("sm-sdk", "rs-0.1.0"), pair("limit", "-5"), pair("include_deleted", "false")]
    );
}

#[test]
fn transcript_query_names_the_format() {
    assert_eq!(
        transcript_query("json-v2"),
        vec![pair("sm-sdk", "rs-0.1.0"), pair("format", "json-v2")]
    );
    assert_eq!(
        transcript_query("srt"),
        vec![pair("sm-sdk", "rs-0.1.0"), pair("format", "srt")]
    );
}

#[test]
fn delete_query_renders_force() {
    assert_eq!(
        delete_query(Some(true)),
        vec![pair("sm-sdk", "rs-0.1.0"), pair("force", "true")]
    );
}

#[test]
fn batch_model_constructors_fill_defaults() {
    let created = CreateJobResponse::new("job-1".to_owned());
    assert_eq!(created.id, "job-1");

    let lang = LanguageIdentificationConfig::new();
    assert_eq!(lang.expected_languages, None);

    let vocab = TranscriptionConfigAdditionalVocabInner::new("gnocchi".to_owned());
    assert_eq!(vocab.content, "gnocchi");
    assert_eq!(vocab.sounds_like, None);

    let alignment = AlignmentConfig::new("en".to_owned());
    assert_eq!(alignment.language, "en");

    let detail = JobDetailError::new("2021-01-01T00:00:00Z".to_owned(), "boom".to_owned());
    assert_eq!(detail.timestamp, "2021-01-01T00:00:00Z");
    assert_eq!(detail.message, "boom");

    let summary = SummarizationResult::new();
    assert_eq!(summary.content, None);
}
