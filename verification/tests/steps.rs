use speechmatics::codec::Frame;
use speechmatics::engine::{
    audio_step, dispatch_frame, should_retry_send, HandshakeStep, HandshakeWait, SendAction,
};
use speechmatics::handlers::EventHandlers;
use speechmatics::models::server_messages::ServerMessages;
use speechmatics::scripted::ReadOutcome;
use speechmatics::{HANDSHAKE_RETRY_BOUND, SEND_RETRY_LIMIT};

fn text(s: &str) -> Frame {
    Frame::Text(s.as_bytes().to_vec())
}

#[test]
fn handshake_wait_tolerates_the_bound_then_times_out() {
    let mut wait = HandshakeWait::new();
    for _ in 0..HANDSHAKE_RETRY_BOUND {
        assert_eq!(wait.on_frame(&text("{\"message\":\"Info\"}")), HandshakeStep::Continue);
    }
    assert_eq!(wait.on_frame(&text("{\"message\":\"Info\"}")), HandshakeStep::TimedOut);
}

#[test]
fn handshake_wait_matches_the_acknowledgement() {
    let mut wait = HandshakeWait::new();
    assert_eq!(wait.on_frame(&text("{\"message\":\"Warning\"}")), HandshakeStep::Continue);
    assert_eq!(
        wait.on_frame(&text("{\"message\":\"RecognitionStarted\"}")),
        HandshakeStep::Established
    );
}

#[test]
fn audio_step_frames_chunks_and_counts() {
    let (action, seq) = audio_step(4, ReadOutcome::Chunk(vec![1, 2, 3]));
    match action {
        SendAction::Audio(f) => assert_eq!(f, Frame::Binary(vec![1, 2, 3])),
        SendAction::Terminate(_) => panic!("expected an audio frame"),
    }
    assert_eq!(seq, 5);
}

#[test]
fn audio_step_terminates_on_exhaustion_and_error() {
    for outcome in [ReadOutcome::Chunk(vec![]), ReadOutcome::End, ReadOutcome::Failed] {
        let (action, seq) = audio_step(7, outcome);
        match action {
            SendAction::Terminate(f) => {
                assert_eq!(f, text("{\"last_seq_no\":7,\"message\":\"EndOfStream\"}"))
            }
            SendAction::Audio(_) => panic!("expected the termination message"),
        }
        assert_eq!(seq, 7);
    }
}

#[test]
fn send_retries_are_bounded() {
    for attempts in 0..SEND_RETRY_LIMIT {
        assert!(should_retry_send(attempts));
    }
    assert!(!should_retry_send(SEND_RETRY_LIMIT));
    assert!(!should_retry_send(SEND_RETRY_LIMIT + 1));
}

#[test]
fn dispatch_step_routes_and_recognizes_the_terminal_event() {
    let mut reg = EventHandlers::new();
    reg.attach(ServerMessages::AddTranscript, 3);
    reg.attach(ServerMessages::EndOfTranscript, 4);

    let step = dispatch_frame(text("{\"message\":\"AddTranscript\"}"), &reg);
    assert!(!step.terminal);
    let delivery = step.delivery.unwrap();
    assert_eq!(delivery.kind, ServerMessages::AddTranscript);
    assert_eq!(delivery.handler, 3);
    assert_eq!(delivery.payload, b"{\"message\":\"AddTranscript\"}".to_vec());

    let terminal = dispatch_frame(text("{\"message\":\"EndOfTranscript\"}"), &reg);
    assert!(terminal.terminal);
    assert!(terminal.delivery.is_some());

    let skipped = dispatch_frame(text("{\"message\":\"Info\"}"), &reg);
    assert!(!skipped.terminal);
    assert!(skipped.delivery.is_none());

    let undecodable = dispatch_frame(text("no json"), &reg);
    assert!(!undecodable.terminal);
    assert!(undecodable.delivery.is_none());
}
