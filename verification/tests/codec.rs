use speechmatics::codec::{
    decode_frame, encode_end_of_stream, encode_set_recognition_config, encode_start_recognition,
    DecodeError, Frame,
};
use speechmatics::config::SessionConfig;
use speechmatics::models::audio_format::{AudioFormat, Encoding, Type};
use speechmatics::models::server_messages::ServerMessages;
use speechmatics::models::transcription_config::{TranscriptionConfig, TranslationConfig};

fn decode_text(s: &str) -> Result<ServerMessages, DecodeError> {
    decode_frame(&Frame::Text(s.as_bytes().to_vec()))
}

#[test]
fn every_known_discriminant_decodes() {
    let cases = vec![
        ("RecognitionStarted", ServerMessages::RecognitionStarted),
        ("AudioAdded", ServerMessages::AudioAdded),
        ("AddPartialTranscript", ServerMessages::AddPartialTranscript),
        ("AddTranscript", ServerMessages::AddTranscript),
        ("AddPartialTranslation", ServerMessages::AddPartialTranslation),
        ("AddTranslation", ServerMessages::AddTranslation),
        ("EndOfTranscript", ServerMessages::EndOfTranscript),
        ("Info", ServerMessages::Info),
        ("Warning", ServerMessages::Warning),
        ("Error", ServerMessages::Error),
    ];
    for (name, kind) in cases {
        let frame = format!("{{\"message\":\"{}\",\"extra\":3}}", name);
        assert_eq!(decode_text(&frame), Ok(kind));
    }
}

#[test]
fn decode_failures_name_their_cause() {
    assert_eq!(decode_text("not json"), Err(DecodeError::MissingDiscriminant));
    assert_eq!(decode_text("{\"status\":\"up\"}"), Err(DecodeError::MissingDiscriminant));
    assert_eq!(decode_text("{\"message\":17}"), Err(DecodeError::MissingDiscriminant));
    assert_eq!(decode_text("[\"message\"]"), Err(DecodeError::MissingDiscriminant));
    assert_eq!(decode_text("{\"message\":\"Bogus\"}"), Err(DecodeError::UnknownDiscriminant));
    assert_eq!(
        decode_text("{\"message\":\"recognitionstarted\"}"),
        Err(DecodeError::UnknownDiscriminant)
    );
}

#[test]
fn termination_message_renders_exactly() {
    assert_eq!(
        encode_end_of_stream(0),
        b"{\"last_seq_no\":0,\"message\":\"EndOfStream\"}".to_vec()
    );
    assert_eq!(
        encode_end_of_stream(1234567890123),
        b"{\"last_seq_no\":1234567890123,\"message\":\"EndOfStream\"}".to_vec()
    );
}

#[test]
fn start_message_renders_all_options() {
    let mut audio = AudioFormat::new(Type::File);
    audio.encoding = Some(Encoding::PcmS16le);
    audio.sample_rate = Some(44100);
    let mut transcription = TranscriptionConfig::new("de".to_owned());
    transcription.domain = Some("finance".to_owned());
    transcription.enable_entities = Some(true);
    transcription.enable_partials = Some(false);
    transcription.output_locale = Some("en-GB".to_owned());
    let mut translation = TranslationConfig::new(vec!["fr".to_owned(), "es".to_owned()]);
    translation.enable_partials = Some(true);

    let cfg = SessionConfig {
        transcription_config: Some(transcription),
        translation_config: Some(translation),
        audio_format: Some(audio),
    };
    let expected = "{\"message\":\"StartRecognition\",\"audio_format\":{\"encoding\":\"pcm_s16le\",\"sample_rate\":44100,\"type\":\"file\"},\"transcription_config\":{\"language\":\"de\",\"domain\":\"finance\",\"enable_entities\":true,\"enable_partials\":false,\"output_locale\":\"en-GB\"},\"translation_config\":{\"target_languages\":[\"fr\",\"es\"],\"enable_partials\":true}}";
    assert_eq!(encode_start_recognition(&cfg), expected.as_bytes().to_vec());
}

#[test]
fn start_message_escapes_string_options() {
    let transcription = TranscriptionConfig::new("e\"n\\x\n".to_owned());
    let cfg = SessionConfig {
        transcription_config: Some(transcription),
        translation_config: None,
        audio_format: None,
    };
    let expected = "{\"message\":\"StartRecognition\",\"audio_format\":{\"type\":\"raw\"},\"transcription_config\":{\"language\":\"e\\\"n\\\\x\\u000a\"}}";
    assert_eq!(encode_start_recognition(&cfg), expected.as_bytes().to_vec());
}

#[test]
fn config_update_message_renders_exactly() {
    let mut transcription = TranscriptionConfig::new("en".to_owned());
    transcription.enable_partials = Some(true);
    let expected = "{\"message\":\"SetRecognitionConfig\",\"transcription_config\":{\"language\":\"en\",\"enable_partials\":true}}";
    assert_eq!(encode_set_recognition_config(&transcription), expected.as_bytes().to_vec());
}

#[test]
fn start_message_parses_back_as_json() {
    let cfg = SessionConfig::default();
    let bytes = encode_start_recognition(&cfg);
    let value: serde_json::Value = serde_json::from_slice(&bytes).unwrap();
    assert_eq!(value["message"], "StartRecognition");
    assert_eq!(value["audio_format"]["type"], "raw");
    assert_eq!(value["transcription_config"]["language"], "en");
}

#[test]
fn server_message_names_round_trip() {
    assert_eq!(ServerMessages::RecognitionStarted.to_string(), "RecognitionStarted");
    assert_eq!(ServerMessages::AudioAdded.to_string(), "AudioAdded");
    assert_eq!(ServerMessages::AddPartialTranscript.to_string(), "AddPartialTranscript");
    assert_eq!(ServerMessages::AddTranscript.to_string(), "AddTranscript");
    assert_eq!(ServerMessages::AddPartialTranslation.to_string(), "AddPartialTranslation");
    assert_eq!(ServerMessages::AddTranslation.to_string(), "AddTranslation");
    assert_eq!(ServerMessages::EndOfTranscript.to_string(), "EndOfTranscript");
    assert_eq!(ServerMessages::Info.to_string(), "Info");
    assert_eq!(ServerMessages::Warning.to_string(), "Warning");
    assert_eq!(ServerMessages::Error.to_string(), "Error");

    for kind in [
        ServerMessages::RecognitionStarted,
        ServerMessages::EndOfTranscript,
        ServerMessages::Error,
    ] {
        let frame = format!("{{\"message\":\"{}\"}}", kind.to_string());
        assert_eq!(decode_text(&frame), Ok(kind));
    }
}
