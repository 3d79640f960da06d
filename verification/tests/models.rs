use speechmatics::config::SessionConfig;
use speechmatics::models::audio_format::{AudioFormat, Encoding, Type};
use speechmatics::models::end_of_stream;
use speechmatics::models::end_of_stream::EndOfStream;
use speechmatics::models::error;
use speechmatics::models::error::{Error, RHashType};
use speechmatics::models::recognition_result;
use speechmatics::models::set_recognition_config;
use speechmatics::models::set_recognition_config::SetRecognitionConfig;
use speechmatics::models::start_recognition;
use speechmatics::models::start_recognition::StartRecognition;
use speechmatics::models::transcription_config::{TranscriptionConfig, TranslationConfig};

#[test]
fn audio_format_constructor_and_defaults() {
    let format = AudioFormat::new(Type::File);
    assert_eq!(format.encoding, None);
    assert_eq!(format.sample_rate, None);
    assert_eq!(format.type_value, Type::File);

    assert_eq!(AudioFormat::default().type_value, Type::Raw);
    assert_eq!(Encoding::default(), Encoding::PcmF32le);
    assert_eq!(Type::default(), Type::Raw);
    assert_eq!(Encoding::Mulaw.wire_name(), "mulaw");
    assert_eq!(Type::File.wire_name(), "file");
}

#[test]
fn end_of_stream_constructor() {
    let eos = EndOfStream::new(42, end_of_stream::Message::EndOfStream);
    assert_eq!(eos.last_seq_no, 42);
    assert_eq!(eos.message, end_of_stream::Message::EndOfStream);
    assert_eq!(EndOfStream::default().last_seq_no, 0);
}

#[test]
fn error_event_constructor() {
    let err = Error::new(error::Message::Error, "not allowed".to_owned(), RHashType::NotAllowed);
    assert_eq!(err.code, None);
    assert_eq!(err.reason, "not allowed");
    assert_eq!(err.seq_no, None);
    assert_eq!(err.type_value, RHashType::NotAllowed);
    assert_eq!(RHashType::default(), RHashType::InvalidMessage);
}

#[test]
fn recognition_result_enum_defaults() {
    assert_eq!(recognition_result::AttachesTo::default(), recognition_result::AttachesTo::Next);
    assert_eq!(recognition_result::RHashType::default(), recognition_result::RHashType::Word);
}

#[test]
fn start_recognition_constructor() {
    let msg = StartRecognition::new(
        AudioFormat::new(Type::Raw),
        start_recognition::Message::StartRecognition,
        TranscriptionConfig::new("en".to_owned()),
    );
    assert_eq!(msg.audio_format.type_value, Type::Raw);
    assert_eq!(msg.transcription_config.language, "en");
    assert_eq!(msg.translation_config, None);
}

#[test]
fn set_recognition_config_constructor() {
    let msg = SetRecognitionConfig::new(
        set_recognition_config::Message::SetRecognitionConfig,
        TranscriptionConfig::new("fr".to_owned()),
    );
    assert_eq!(msg.transcription_config.language, "fr");
}

#[test]
fn transcription_config_constructor() {
    let cfg = TranscriptionConfig::new("cy".to_owned());
    assert_eq!(cfg.language, "cy");
    assert_eq!(cfg.domain, None);
    assert_eq!(cfg.enable_entities, None);
    assert_eq!(cfg.enable_partials, None);
    assert_eq!(cfg.output_locale, None);

    let translation = TranslationConfig::new(vec!["de".to_owned()]);
    assert_eq!(translation.target_languages, vec!["de".to_owned()]);
    assert_eq!(translation.enable_partials, None);
    assert_eq!(TranslationConfig::default().target_languages.len(), 0);
}

#[test]
fn session_config_default_speaks_english_raw_audio() {
    let cfg = SessionConfig::default();
    let transcription = cfg.transcription_config.unwrap();
    assert_eq!(transcription.language, "en");
    let audio = cfg.audio_format.unwrap();
    assert_eq!(audio.type_value, Type::Raw);
    assert_eq!(cfg.translation_config, None);
}
