use speechmatics::codec::Frame;
use speechmatics::config::SessionConfig;
use speechmatics::engine::SessionError;
use speechmatics::models::server_messages::ServerMessages;
use speechmatics::scripted::{ScriptedSource, ScriptedTransport};
use speechmatics::session::{RealtimeSession, DEFAULT_RT_URL};

fn text(s: &str) -> Frame {
    Frame::Text(s.as_bytes().to_vec())
}

const START_DEFAULT: &str = "{\"message\":\"StartRecognition\",\"audio_format\":{\"type\":\"raw\"},\"transcription_config\":{\"language\":\"en\"}}";

#[test]
fn run_streams_three_chunks_and_succeeds() {
    let mut session = RealtimeSession::new("TOKEN".to_owned(), None);
    session.add_event_handler(ServerMessages::RecognitionStarted, 1);
    session.add_event_handler(ServerMessages::AddPartialTranscript, 2);
    session.add_event_handler(ServerMessages::AddTranscript, 3);
    session.add_event_handler(ServerMessages::EndOfTranscript, 4);

    let mut transport = ScriptedTransport::new(vec![
        text("{\"message\":\"RecognitionStarted\"}"),
        text("{\"message\":\"AddPartialTranscript\"}"),
        text("{\"message\":\"AddTranscript\"}"),
        text("{\"message\":\"EndOfTranscript\"}"),
    ]);
    let mut source = ScriptedSource::new(vec![vec![7u8; 100], vec![8u8; 100], vec![9u8; 100]]);

    let config = SessionConfig::default();
    let report = session.run(&config, &mut transport, &mut source).unwrap();

    assert_eq!(report.last_seq_no, 3);

    let sent = transport.sent_frames();
    assert_eq!(sent.len(), 5);
    assert_eq!(sent[0], text(START_DEFAULT));
    assert_eq!(sent[1], Frame::Binary(vec![7u8; 100]));
    assert_eq!(sent[2], Frame::Binary(vec![8u8; 100]));
    assert_eq!(sent[3], Frame::Binary(vec![9u8; 100]));
    assert_eq!(sent[4], text("{\"last_seq_no\":3,\"message\":\"EndOfStream\"}"));

    // Each registered handler is invoked exactly once per corresponding event.
    assert_eq!(report.deliveries.len(), 4);
    assert_eq!(report.deliveries[0].kind, ServerMessages::RecognitionStarted);
    assert_eq!(report.deliveries[0].handler, 1);
    assert_eq!(report.deliveries[1].kind, ServerMessages::AddPartialTranscript);
    assert_eq!(report.deliveries[1].handler, 2);
    assert_eq!(report.deliveries[2].kind, ServerMessages::AddTranscript);
    assert_eq!(report.deliveries[2].handler, 3);
    assert_eq!(report.deliveries[3].kind, ServerMessages::EndOfTranscript);
    assert_eq!(report.deliveries[3].handler, 4);
}

#[test]
fn handshake_timeout_after_six_non_matching_frames() {
    let mut session = RealtimeSession::new("TOKEN".to_owned(), None);
    session.add_event_handler(ServerMessages::AddTranscript, 3);

    let mut transport = ScriptedTransport::new(vec![
        text("{\"message\":\"Info\"}"),
        text("{\"message\":\"Info\"}"),
        text("{\"message\":\"Info\"}"),
        text("{\"message\":\"Info\"}"),
        text("{\"message\":\"Info\"}"),
        text("{\"message\":\"Info\"}"),
    ]);
    let mut source = ScriptedSource::new(vec![vec![1u8; 100]]);

    let config = SessionConfig::default();
    let err = session.run(&config, &mut transport, &mut source).unwrap_err();
    assert_eq!(err, SessionError::HandshakeTimeout);

    // No audio was sent: only the session-start control frame went out.
    let sent = transport.sent_frames();
    assert_eq!(sent.len(), 1);
    assert_eq!(sent[0], text(START_DEFAULT));
}

#[test]
fn failing_source_still_terminates_cleanly() {
    let mut session = RealtimeSession::new("TOKEN".to_owned(), None);
    session.add_event_handler(ServerMessages::AddTranscript, 11);
    session.add_event_handler(ServerMessages::EndOfTranscript, 12);

    let mut transport = ScriptedTransport::new(vec![
        text("{\"message\":\"RecognitionStarted\"}"),
        text("{\"message\":\"AddTranscript\"}"),
        text("{\"message\":\"EndOfTranscript\"}"),
    ]);
    let mut source = ScriptedSource::with_read_error(vec![]);

    let config = SessionConfig::default();
    let report = session.run(&config, &mut transport, &mut source).unwrap();

    // The handshake completed and exactly one termination message was
    // sent, carrying a counter of zero.
    assert_eq!(report.last_seq_no, 0);
    let sent = transport.sent_frames();
    assert_eq!(sent.len(), 2);
    assert_eq!(sent[1], text("{\"last_seq_no\":0,\"message\":\"EndOfStream\"}"));

    // The dispatcher still processed events until the terminal one.
    assert_eq!(report.deliveries.len(), 2);
    assert_eq!(report.deliveries[0].kind, ServerMessages::AddTranscript);
    assert_eq!(report.deliveries[1].kind, ServerMessages::EndOfTranscript);
}

#[test]
fn sequence_counter_equals_non_empty_reads() {
    let mut session = RealtimeSession::new("TOKEN".to_owned(), None);

    let mut transport = ScriptedTransport::new(vec![
        text("{\"message\":\"RecognitionStarted\"}"),
        text("{\"message\":\"EndOfTranscript\"}"),
    ]);
    // An empty read marks exhaustion: the chunk after it is never read.
    let mut source = ScriptedSource::new(vec![vec![1u8; 50], vec![], vec![2u8; 70]]);

    let config = SessionConfig::default();
    let report = session.run(&config, &mut transport, &mut source).unwrap();

    assert_eq!(report.last_seq_no, 1);
    let sent = transport.sent_frames();
    assert_eq!(sent.len(), 3);
    assert_eq!(sent[1], Frame::Binary(vec![1u8; 50]));
    assert_eq!(sent[2], text("{\"last_seq_no\":1,\"message\":\"EndOfStream\"}"));
}

#[test]
fn reregistered_handler_replaces_previous() {
    let mut session = RealtimeSession::new("TOKEN".to_owned(), None);
    session.add_event_handler(ServerMessages::AddTranscript, 7);
    session.add_event_handler(ServerMessages::AddTranscript, 9);
    assert_eq!(session.handler_for(ServerMessages::AddTranscript), Some(9));
    assert_eq!(session.handler_for(ServerMessages::Warning), None);

    let mut transport = ScriptedTransport::new(vec![
        text("{\"message\":\"RecognitionStarted\"}"),
        text("{\"message\":\"AddTranscript\"}"),
        text("{\"message\":\"EndOfTranscript\"}"),
    ]);
    let mut source = ScriptedSource::new(vec![]);

    let config = SessionConfig::default();
    let report = session.run(&config, &mut transport, &mut source).unwrap();

    // Only the latest handler is ever invoked.
    assert_eq!(report.deliveries.len(), 1);
    assert_eq!(report.deliveries[0].kind, ServerMessages::AddTranscript);
    assert_eq!(report.deliveries[0].handler, 9);
}

#[test]
fn unrecognized_frames_are_skipped_without_ending_the_session() {
    let mut session = RealtimeSession::new("TOKEN".to_owned(), None);
    session.add_event_handler(ServerMessages::AddTranscript, 5);
    session.add_event_handler(ServerMessages::EndOfTranscript, 6);

    let mut transport = ScriptedTransport::new(vec![
        text("{\"message\":\"RecognitionStarted\"}"),
        text("{\"message\":\"SomethingNew\"}"),
        Frame::Text(b"not json at all".to_vec()),
        text("{\"status\":\"no discriminant\"}"),
        text("{\"message\":\"AddTranscript\"}"),
        text("{\"message\":\"EndOfTranscript\"}"),
    ]);
    let mut source = ScriptedSource::new(vec![]);

    let config = SessionConfig::default();
    let report = session.run(&config, &mut transport, &mut source).unwrap();

    // The malformed frames neither crashed the loop nor produced
    // deliveries nor completed the session early.
    assert_eq!(report.deliveries.len(), 2);
    assert_eq!(report.deliveries[0].kind, ServerMessages::AddTranscript);
    assert_eq!(report.deliveries[0].handler, 5);
    assert_eq!(report.deliveries[1].kind, ServerMessages::EndOfTranscript);
}

#[test]
fn peer_close_before_terminal_event_is_an_error() {
    let mut session = RealtimeSession::new("TOKEN".to_owned(), None);
    let mut transport = ScriptedTransport::new(vec![
        text("{\"message\":\"RecognitionStarted\"}"),
        text("{\"message\":\"AddTranscript\"}"),
    ]);
    let mut source = ScriptedSource::new(vec![]);

    let config = SessionConfig::default();
    let err = session.run(&config, &mut transport, &mut source).unwrap_err();
    assert_eq!(err, SessionError::PeerClosed);
}

#[test]
fn peer_close_during_handshake_is_an_error() {
    let mut session = RealtimeSession::new("TOKEN".to_owned(), None);
    let mut transport = ScriptedTransport::new(vec![]);
    let mut source = ScriptedSource::new(vec![vec![1u8; 10]]);

    let config = SessionConfig::default();
    let err = session.run(&config, &mut transport, &mut source).unwrap_err();
    assert_eq!(err, SessionError::HandshakeClosed);
}

#[test]
fn events_in_binary_frames_are_dispatched_too() {
    let mut session = RealtimeSession::new("TOKEN".to_owned(), None);
    session.add_event_handler(ServerMessages::Warning, 21);
    session.add_event_handler(ServerMessages::EndOfTranscript, 22);

    let mut transport = ScriptedTransport::new(vec![
        text("{\"message\":\"RecognitionStarted\"}"),
        Frame::Binary(b"{\"message\":\"Warning\"}".to_vec()),
        text("{\"message\":\"EndOfTranscript\"}"),
    ]);
    let mut source = ScriptedSource::new(vec![]);

    let config = SessionConfig::default();
    let report = session.run(&config, &mut transport, &mut source).unwrap();
    assert_eq!(report.deliveries.len(), 2);
    assert_eq!(report.deliveries[0].kind, ServerMessages::Warning);
    assert_eq!(report.deliveries[0].handler, 21);
}

#[test]
fn unregistered_kinds_are_dropped_silently() {
    let mut session = RealtimeSession::new("TOKEN".to_owned(), None);
    session.add_event_handler(ServerMessages::EndOfTranscript, 30);

    let mut transport = ScriptedTransport::new(vec![
        text("{\"message\":\"RecognitionStarted\"}"),
        text("{\"message\":\"Info\"}"),
        text("{\"message\":\"AddTranscript\"}"),
        text("{\"message\":\"EndOfTranscript\"}"),
    ]);
    let mut source = ScriptedSource::new(vec![]);

    let config = SessionConfig::default();
    let report = session.run(&config, &mut transport, &mut source).unwrap();
    assert_eq!(report.deliveries.len(), 1);
    assert_eq!(report.deliveries[0].kind, ServerMessages::EndOfTranscript);
    assert_eq!(report.deliveries[0].handler, 30);
}

#[test]
fn new_session_uses_default_endpoint() {
    let session = RealtimeSession::new("TOKEN".to_owned(), None);
    assert_eq!(session.rt_url, DEFAULT_RT_URL);
    assert_eq!(session.auth_token, "TOKEN");

    let other = RealtimeSession::new("TOKEN".to_owned(), Some("wss://example.com/v2".to_owned()));
    assert_eq!(other.rt_url, "wss://example.com/v2");
}
