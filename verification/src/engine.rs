//! The session engine: the handshake wait, the audio sender with its
//! sequence counter, the event dispatcher, and the orchestrated run over
//! a scripted transport and audio source. The embedding application
//! drives the same step functions over a live connection.

use vstd::prelude::*;
use crate::codec::{
    decode_frame, encode_audio, end_of_stream_frame, spec_decode_frame, spec_eos_json,
    spec_payload, spec_start_json, start_recognition_frame, Frame, FrameModel,
};
use crate::config::SessionConfig;
use crate::handlers::EventHandlers;
use crate::models::server_messages::ServerMessages;
use crate::scripted::{ReadOutcome, ScriptedSource, ScriptedTransport};
use crate::HANDSHAKE_RETRY_BOUND;

verus! {

/// Which stage of a run failed, and how.
#[derive(Clone, Copy, Debug, Eq, PartialEq, Structural)]
pub enum SessionError {
    /// The endpoint address could not be parsed or names no host.
    InvalidEndpoint,
    /// The acknowledgement did not arrive within the handshake retry
    /// bound; no audio was sent.
    HandshakeTimeout,
    /// The peer closed the connection while the handshake was waiting
    /// for its acknowledgement.
    HandshakeClosed,
    /// The peer closed the connection before the terminal event.
    PeerClosed,
}

/// One delivery of a decoded event to the handler registered for its
/// kind: which kind, which handler id, and the raw frame payload.
#[derive(Clone, Debug, Eq, PartialEq)]
pub struct Delivery {
    pub kind: ServerMessages,
    pub handler: u64,
    pub payload: Vec<u8>,
}

/// The mathematical value of a delivery.
pub struct DeliveryModel {
    pub kind: ServerMessages,
    pub handler: u64,
    pub payload: Seq<u8>,
}

impl View for Delivery {
    type V = DeliveryModel;

    open spec fn view(&self) -> DeliveryModel {
        DeliveryModel { kind: self.kind, handler: self.handler, payload: self.payload@ }
    }
}

/// The mathematical values of a sequence of deliveries.
pub open spec fn deliveries_views(s: Seq<Delivery>) -> Seq<DeliveryModel> {
    s.map_values(|d: Delivery| d@)
}

/// How the handshake wait ends on a given script of inbound frames, and
/// how many frames it consumes.
pub enum HandshakeOutcome {
    /// The acknowledgement arrived; its frame carried `payload`.
    Established { consumed: nat, payload: Seq<u8> },
    /// More non-matching frames arrived than the retry bound tolerates.
    TimedOut { consumed: nat },
    /// The frames ran out before the acknowledgement.
    Closed { consumed: nat },
}

/// The same outcome with `n` more consumed frames.
pub open spec fn spec_hs_add(o: HandshakeOutcome, n: nat) -> HandshakeOutcome {
    match o {
        HandshakeOutcome::Established { consumed, payload } => HandshakeOutcome::Established {
            consumed: consumed + n,
            payload,
        },
        HandshakeOutcome::TimedOut { consumed } => HandshakeOutcome::TimedOut {
            consumed: consumed + n,
        },
        HandshakeOutcome::Closed { consumed } => HandshakeOutcome::Closed {
            consumed: consumed + n,
        },
    }
}

/// The handshake wait over `frames`, having already tolerated `retries`
/// non-matching frames: the first frame that decodes to the
/// acknowledgement establishes the session; each other frame counts
/// against the retry bound; running out of frames is a peer close.
pub open spec fn spec_handshake(frames: Seq<FrameModel>, retries: nat) -> HandshakeOutcome
    decreases frames.len(),
{
    if frames.len() == 0 {
        HandshakeOutcome::Closed { consumed: 0 }
    } else if spec_decode_frame(frames[0]) == Some(ServerMessages::RecognitionStarted) {
        HandshakeOutcome::Established { consumed: 1, payload: spec_payload(frames[0]) }
    } else if retries + 1 > HANDSHAKE_RETRY_BOUND {
        HandshakeOutcome::TimedOut { consumed: 1 }
    } else {
        spec_hs_add(spec_handshake(frames.drop_first(), retries + 1), 1)
    }
}

/// The delivery that the handshake acknowledgement itself produces, if a
/// handler is registered for it.
pub open spec fn spec_hs_delivery(reg: EventHandlers, payload: Seq<u8>) -> Seq<DeliveryModel> {
    match reg.spec_handler(ServerMessages::RecognitionStarted) {
        Some(h) => seq![
            DeliveryModel {
                kind: ServerMessages::RecognitionStarted,
                handler: h,
                payload,
            },
        ],
        None => Seq::<DeliveryModel>::empty(),
    }
}

/// The raw bytes of a frame, surrendered.
fn into_payload(f: Frame) -> (r: Vec<u8>)
    ensures
        r@ == spec_payload(f@),
{
    match f {
        Frame::Text(p) => p,
        Frame::Binary(p) => p,
    }
}

/// Waits for the server's acknowledgement: receives frames until one
/// decodes to the session-start acknowledgement, tolerating at most the
/// retry bound of non-matching frames. On success the acknowledgement is
/// delivered to its registered handler (if any) before any audio flows;
/// nothing is ever sent. The result and the frames consumed follow
/// `spec_handshake` exactly.
#[verifier::loop_isolation(false)]
pub fn wait_for_start(
    t: &mut ScriptedTransport,
    reg: &EventHandlers,
    deliveries: &mut Vec<Delivery>,
) -> (r: Result<(), SessionError>)
    ensures
        final(t).spec_sent() == old(t).spec_sent(),
        match spec_handshake(old(t).spec_incoming(), 0) {
            HandshakeOutcome::Established { consumed, payload } => {
                &&& r is Ok
                &&& final(t).spec_incoming() == old(t).spec_incoming().skip(consumed as int)
                &&& deliveries_views(final(deliveries)@) == deliveries_views(old(deliveries)@)
                    + spec_hs_delivery(*reg, payload)
            },
            HandshakeOutcome::TimedOut { consumed } => {
                &&& r == Err::<(), SessionError>(SessionError::HandshakeTimeout)
                &&& final(t).spec_incoming() == old(t).spec_incoming().skip(consumed as int)
                &&& final(deliveries)@ == old(deliveries)@
            },
            HandshakeOutcome::Closed { consumed } => {
                &&& r == Err::<(), SessionError>(SessionError::HandshakeClosed)
                &&& final(t).spec_incoming() == old(t).spec_incoming().skip(consumed as int)
                &&& final(deliveries)@ == old(deliveries)@
            },
        },
{
    let ghost orig = t.spec_incoming();
    let ghost mut consumed: nat = 0;
    let mut retries: u64 = 0;
    loop
        invariant
            retries <= HANDSHAKE_RETRY_BOUND,
            t.spec_sent() == old(t).spec_sent(),
            deliveries@ == old(deliveries)@,
            t.spec_incoming() == orig.skip(consumed as int),
            consumed <= orig.len(),
            spec_handshake(orig, 0) == spec_hs_add(
                spec_handshake(t.spec_incoming(), retries as nat),
                consumed,
            ),
        decreases orig.len() - consumed,
    {
        let ghost cur = t.spec_incoming();
        match t.receive() {
            None => {
                proof {
                    assert(cur.len() == 0);
                    assert(spec_handshake(orig, 0) == HandshakeOutcome::Closed {
                        consumed: consumed,
                    });
                }
                return Err(SessionError::HandshakeClosed);
            },
            Some(f) => {
                let decoded = decode_frame(&f);
                let matched = match decoded {
                    Ok(k) => k == ServerMessages::RecognitionStarted,
                    Err(_) => false,
                };
                if matched {
                    proof {
                        assert(spec_handshake(cur, retries as nat)
                            == HandshakeOutcome::Established {
                            consumed: 1,
                            payload: spec_payload(f@),
                        });
                        assert(spec_handshake(orig, 0) == HandshakeOutcome::Established {
                            consumed: (consumed + 1) as nat,
                            payload: spec_payload(f@),
                        });
                        assert(t.spec_incoming() =~= orig.skip(consumed as int + 1));
                    }
                    match reg.handler_for(ServerMessages::RecognitionStarted) {
                        Some(h) => {
                            let payload = into_payload(f);
                            deliveries.push(
                                Delivery {
                                    kind: ServerMessages::RecognitionStarted,
                                    handler: h,
                                    payload,
                                },
                            );
                            proof {
                                assert(deliveries_views(deliveries@) =~= deliveries_views(
                                    old(deliveries)@,
                                ) + spec_hs_delivery(*reg, spec_payload(f@)));
                            }
                        },
                        None => {
                            proof {
                                assert(deliveries_views(deliveries@) =~= deliveries_views(
                                    old(deliveries)@,
                                ) + spec_hs_delivery(*reg, spec_payload(f@)));
                            }
                        },
                    }
                    return Ok(());
                } else {
                    if retries >= HANDSHAKE_RETRY_BOUND {
                        proof {
                            assert(spec_handshake(cur, retries as nat)
                                == HandshakeOutcome::TimedOut { consumed: 1 });
                            assert(spec_handshake(orig, 0) == HandshakeOutcome::TimedOut {
                                consumed: (consumed + 1) as nat,
                            });
                            assert(t.spec_incoming() =~= orig.skip(consumed as int + 1));
                        }
                        return Err(SessionError::HandshakeTimeout);
                    }
                    retries = retries + 1;
                    proof {
                        consumed = consumed + 1;
                        assert(cur.drop_first() =~= orig.skip(consumed as int));
                    }
                }
            },
        }
    }
}


/// The delivery one frame produces: a decoded frame goes to the handler
/// registered for its kind; an undecodable frame or an unregistered kind
/// produces nothing.
pub open spec fn spec_frame_delivery(f: FrameModel, reg: EventHandlers) -> Seq<DeliveryModel> {
    match spec_decode_frame(f) {
        Some(k) => match reg.spec_handler(k) {
            Some(h) => seq![DeliveryModel { kind: k, handler: h, payload: spec_payload(f) }],
            None => Seq::<DeliveryModel>::empty(),
        },
        None => Seq::<DeliveryModel>::empty(),
    }
}

/// The deliveries dispatch produces over `frames`, in order, up to and
/// including the terminal event.
pub open spec fn spec_dispatch_deliveries(frames: Seq<FrameModel>, reg: EventHandlers) -> Seq<
    DeliveryModel,
>
    decreases frames.len(),
{
    if frames.len() == 0 {
        Seq::<DeliveryModel>::empty()
    } else if spec_decode_frame(frames[0]) == Some(ServerMessages::EndOfTranscript) {
        spec_frame_delivery(frames[0], reg)
    } else {
        spec_frame_delivery(frames[0], reg) + spec_dispatch_deliveries(frames.drop_first(), reg)
    }
}

/// Whether dispatch over `frames` observes the terminal event before the
/// frames run out.
pub open spec fn spec_dispatch_ok(frames: Seq<FrameModel>) -> bool
    decreases frames.len(),
{
    if frames.len() == 0 {
        false
    } else if spec_decode_frame(frames[0]) == Some(ServerMessages::EndOfTranscript) {
        true
    } else {
        spec_dispatch_ok(frames.drop_first())
    }
}

/// What the dispatcher decided for one inbound frame.
pub struct FrameDisposition {
    /// The delivery the frame produced, if its kind has a handler.
    pub delivery: Option<Delivery>,
    /// Whether the frame is the terminal event, after which the session
    /// is complete and no further inbound frames are processed.
    pub terminal: bool,
}

/// One dispatcher step: decode the frame, route it to the handler
/// registered for its kind (or drop it silently if none is registered),
/// and recognize the terminal event. A frame that fails to decode is
/// skipped: it produces no delivery and does not advance
/// session-completion state.
pub fn dispatch_frame(f: Frame, reg: &EventHandlers) -> (r: FrameDisposition)
    ensures
        r.terminal == (spec_decode_frame(f@) == Some(ServerMessages::EndOfTranscript)),
        (match r.delivery {
            Some(d) => seq![d@],
            None => Seq::<DeliveryModel>::empty(),
        }) == spec_frame_delivery(f@, *reg),
        spec_decode_frame(f@) is None ==> r.delivery is None && !r.terminal,
{
    let ghost fm = f@;
    match decode_frame(&f) {
        Ok(k) => {
            let terminal = k == ServerMessages::EndOfTranscript;
            match reg.handler_for(k) {
                Some(h) => {
                    let payload = into_payload(f);
                    let d = Delivery { kind: k, handler: h, payload };
                    proof {
                        assert(seq![d@] =~= spec_frame_delivery(fm, *reg));
                    }
                    FrameDisposition { delivery: Some(d), terminal }
                },
                None => FrameDisposition { delivery: None, terminal },
            }
        },
        Err(_) => FrameDisposition { delivery: None, terminal: false },
    }
}

/// Reads frames until the terminal event: each frame is decoded and
/// routed to its registered handler, undecodable frames are skipped, and
/// the terminal event is still delivered before the loop exits. The
/// peer closing the connection before the terminal event is a protocol
/// violation, surfaced as `PeerClosed`.
#[verifier::loop_isolation(false)]
pub fn process_messages(
    t: &mut ScriptedTransport,
    reg: &EventHandlers,
    deliveries: &mut Vec<Delivery>,
) -> (r: Result<(), SessionError>)
    ensures
        final(t).spec_sent() == old(t).spec_sent(),
        deliveries_views(final(deliveries)@) == deliveries_views(old(deliveries)@)
            + spec_dispatch_deliveries(old(t).spec_incoming(), *reg),
        r is Ok <==> spec_dispatch_ok(old(t).spec_incoming()),
        r is Err ==> r == Err::<(), SessionError>(SessionError::PeerClosed),
{
    loop
        invariant
            t.spec_sent() == old(t).spec_sent(),
            deliveries_views(old(deliveries)@) + spec_dispatch_deliveries(
                old(t).spec_incoming(),
                *reg,
            ) == deliveries_views(deliveries@) + spec_dispatch_deliveries(
                t.spec_incoming(),
                *reg,
            ),
            spec_dispatch_ok(old(t).spec_incoming()) == spec_dispatch_ok(t.spec_incoming()),
        decreases t.spec_incoming().len(),
    {
        let ghost cur = t.spec_incoming();
        let ghost deliv_before = deliveries@;
        match t.receive() {
            None => {
                proof {
                    assert(spec_dispatch_deliveries(cur, *reg)
                        =~= Seq::<DeliveryModel>::empty());
                    assert(deliveries_views(deliveries@) =~= deliveries_views(old(deliveries)@)
                        + spec_dispatch_deliveries(old(t).spec_incoming(), *reg));
                }
                return Err(SessionError::PeerClosed);
            },
            Some(f) => {
                let ghost fm = f@;
                let disp = dispatch_frame(f, reg);
                match disp.delivery {
                    Some(d) => {
                        let ghost dm = d@;
                        deliveries.push(d);
                        proof {
                            assert(deliveries_views(deliveries@) =~= deliveries_views(
                                deliv_before,
                            ) + seq![dm]);
                        }
                    },
                    None => {},
                }
                proof {
                    assert(deliveries_views(deliveries@) =~= deliveries_views(deliv_before)
                        + spec_frame_delivery(fm, *reg));
                    if disp.terminal {
                        assert(spec_dispatch_deliveries(cur, *reg) == spec_frame_delivery(
                            fm,
                            *reg,
                        ));
                        assert(deliveries_views(deliveries@) + spec_dispatch_deliveries(
                            t.spec_incoming(),
                            *reg,
                        ) =~= deliveries_views(deliv_before) + spec_dispatch_deliveries(cur, *reg)
                            + spec_dispatch_deliveries(t.spec_incoming(), *reg));
                        assert(deliveries_views(deliveries@) =~= deliveries_views(
                            old(deliveries)@,
                        ) + spec_dispatch_deliveries(old(t).spec_incoming(), *reg));
                    } else {
                        assert(spec_dispatch_deliveries(cur, *reg) =~= spec_frame_delivery(
                            fm,
                            *reg,
                        ) + spec_dispatch_deliveries(cur.drop_first(), *reg));
                        assert(deliveries_views(deliveries@) + spec_dispatch_deliveries(
                            t.spec_incoming(),
                            *reg,
                        ) =~= deliveries_views(deliv_before) + spec_dispatch_deliveries(
                            cur,
                            *reg,
                        ));
                    }
                }
                if disp.terminal {
                    return Ok(());
                }
            },
        }
    }
}

/// How many chunks the audio sender transmits before winding down: every
/// chunk up to the first empty read, an empty read marking exhaustion.
pub open spec fn spec_audio_count(chunks: Seq<Seq<u8>>) -> nat
    decreases chunks.len(),
{
    if chunks.len() == 0 || chunks[0].len() == 0 {
        0
    } else {
        1 + spec_audio_count(chunks.drop_first())
    }
}

/// The audio frames transmitted: one binary frame per sent chunk, in the
/// exact order the chunks were read.
pub open spec fn spec_audio_frames(chunks: Seq<Seq<u8>>) -> Seq<FrameModel>
    decreases chunks.len(),
{
    if chunks.len() == 0 || chunks[0].len() == 0 {
        Seq::<FrameModel>::empty()
    } else {
        seq![FrameModel::Binary(chunks[0])] + spec_audio_frames(chunks.drop_first())
    }
}

/// The sender never counts more chunks than the source holds.
proof fn lemma_audio_count_le_len(chunks: Seq<Seq<u8>>)
    ensures
        spec_audio_count(chunks) <= chunks.len(),
    decreases chunks.len(),
{
    if chunks.len() > 0 && chunks[0].len() > 0 {
        lemma_audio_count_le_len(chunks.drop_first());
    }
}

/// Law: the sequence counter carried by the termination message counts
/// exactly the non-empty reads that preceded stream exhaustion. Of the
/// chunks a source holds, the counter names the length of the prefix of
/// non-empty chunks; one audio frame was transmitted per counted chunk,
/// carrying that chunk's bytes in order; and when the counter stops
/// short of the source it is because an empty read marked exhaustion.
pub proof fn lemma_counter_counts_nonempty_reads(chunks: Seq<Seq<u8>>)
    ensures
        spec_audio_frames(chunks).len() == spec_audio_count(chunks),
        spec_audio_count(chunks) <= chunks.len(),
        forall|i: int|
            0 <= i < spec_audio_count(chunks) ==> chunks[i].len() > 0 && spec_audio_frames(
                chunks,
            )[i] == FrameModel::Binary(chunks[i]),
        spec_audio_count(chunks) < chunks.len() ==> chunks[spec_audio_count(chunks) as int].len()
            == 0,
    decreases chunks.len(),
{
    if chunks.len() == 0 || chunks[0].len() == 0 {
    } else {
        lemma_counter_counts_nonempty_reads(chunks.drop_first());
        let rest = chunks.drop_first();
        assert forall|i: int| 0 <= i < spec_audio_count(chunks) implies chunks[i].len() > 0
            && spec_audio_frames(chunks)[i] == FrameModel::Binary(chunks[i]) by {
            if i > 0 {
                assert(rest[i - 1] == chunks[i]);
                assert(spec_audio_frames(chunks)[i] == spec_audio_frames(rest)[i - 1]);
            }
        }
    }
}

/// Drains the audio source in chunks: every non-empty read is framed and
/// transmitted in order and bumps the sequence counter by exactly one.
/// On a zero-length read, source exhaustion, or a read error, exactly one
/// termination control message is sent, carrying the sequence counter
/// verbatim, and no further reads occur. The returned counter equals the
/// number of non-empty reads that preceded stream exhaustion.
#[verifier::loop_isolation(false)]
pub fn send_audio(t: &mut ScriptedTransport, src: &mut ScriptedSource) -> (last_seq_no: u64)
    ensures
        final(t).spec_incoming() == old(t).spec_incoming(),
        last_seq_no as nat == spec_audio_count(old(src).spec_chunks()),
        final(t).spec_sent() == old(t).spec_sent() + spec_audio_frames(old(src).spec_chunks())
            + seq![FrameModel::Text(spec_eos_json(spec_audio_count(old(src).spec_chunks())))],
{
    proof {
        old(src).lemma_chunks_bounded();
        lemma_audio_count_le_len(old(src).spec_chunks());
    }
    let mut seq_no: u64 = 0;
    loop
        invariant
            t.spec_incoming() == old(t).spec_incoming(),
            seq_no as nat + spec_audio_count(src.spec_chunks()) == spec_audio_count(
                old(src).spec_chunks(),
            ),
            t.spec_sent() + spec_audio_frames(src.spec_chunks()) == old(t).spec_sent()
                + spec_audio_frames(old(src).spec_chunks()),
        decreases src.spec_chunks().len(),
    {
        let ghost cur = src.spec_chunks();
        let ghost sent_before = t.spec_sent();
        match src.read() {
            ReadOutcome::Chunk(c) => {
                let ghost cv = c@;
                if c.len() == 0 {
                    proof {
                        assert(spec_audio_count(cur) == 0);
                        assert(spec_audio_frames(cur) =~= Seq::<FrameModel>::empty());
                    }
                    let f = end_of_stream_frame(seq_no);
                    t.send(f);
                    proof {
                        assert(t.spec_sent() =~= old(t).spec_sent() + spec_audio_frames(
                            old(src).spec_chunks(),
                        ) + seq![
                            FrameModel::Text(
                                spec_eos_json(spec_audio_count(old(src).spec_chunks())),
                            ),
                        ]);
                    }
                    return seq_no;
                } else {
                    proof {
                        assert(spec_audio_count(cur) == 1 + spec_audio_count(cur.drop_first()));
                        assert(spec_audio_frames(cur) =~= seq![FrameModel::Binary(cv)]
                            + spec_audio_frames(cur.drop_first()));
                    }
                    let f = encode_audio(c);
                    t.send(f);
                    seq_no = seq_no + 1;
                    proof {
                        assert(t.spec_sent() + spec_audio_frames(src.spec_chunks())
                            =~= sent_before + spec_audio_frames(cur));
                    }
                }
            },
            ReadOutcome::End => {
                proof {
                    assert(spec_audio_count(cur) == 0);
                    assert(spec_audio_frames(cur) =~= Seq::<FrameModel>::empty());
                }
                let f = end_of_stream_frame(seq_no);
                t.send(f);
                proof {
                    assert(t.spec_sent() =~= old(t).spec_sent() + spec_audio_frames(
                        old(src).spec_chunks(),
                    ) + seq![
                        FrameModel::Text(spec_eos_json(spec_audio_count(old(src).spec_chunks()))),
                    ]);
                }
                return seq_no;
            },
            ReadOutcome::Failed => {
                proof {
                    assert(spec_audio_count(cur) == 0);
                    assert(spec_audio_frames(cur) =~= Seq::<FrameModel>::empty());
                }
                let f = end_of_stream_frame(seq_no);
                t.send(f);
                proof {
                    assert(t.spec_sent() =~= old(t).spec_sent() + spec_audio_frames(
                        old(src).spec_chunks(),
                    ) + seq![
                        FrameModel::Text(spec_eos_json(spec_audio_count(old(src).spec_chunks()))),
                    ]);
                }
                return seq_no;
            },
        }
    }
}


/// The complete outbound log of a run over the given script and audio
/// chunks: the session-start control frame, then — only once the
/// handshake has succeeded — the audio frames and exactly one
/// termination message carrying the final sequence counter.
pub open spec fn spec_run_sent(
    cfg: SessionConfig,
    script: Seq<FrameModel>,
    chunks: Seq<Seq<u8>>,
) -> Seq<FrameModel> {
    if spec_handshake(script, 0) is Established {
        seq![FrameModel::Text(spec_start_json(cfg))] + spec_audio_frames(chunks) + seq![
            FrameModel::Text(spec_eos_json(spec_audio_count(chunks))),
        ]
    } else {
        seq![FrameModel::Text(spec_start_json(cfg))]
    }
}

/// Law: no audio frame is ever sent before the acknowledgement is
/// observed. In the outbound log of a run the session-start control
/// frame always stands first; when the handshake does not succeed the
/// log holds nothing but that control frame; and every binary audio
/// frame stands strictly after it, only in logs of runs whose handshake
/// succeeded.
pub proof fn lemma_no_audio_before_ack(
    cfg: SessionConfig,
    script: Seq<FrameModel>,
    chunks: Seq<Seq<u8>>,
)
    ensures
        spec_run_sent(cfg, script, chunks)[0] == FrameModel::Text(spec_start_json(cfg)),
        !(spec_handshake(script, 0) is Established) ==> spec_run_sent(cfg, script, chunks)
            == seq![FrameModel::Text(spec_start_json(cfg))],
        forall|i: int|
            0 <= i < spec_run_sent(cfg, script, chunks).len() && spec_run_sent(
                cfg,
                script,
                chunks,
            )[i] is Binary ==> spec_handshake(script, 0) is Established && i >= 1,
{
    let log = spec_run_sent(cfg, script, chunks);
    assert forall|i: int| 0 <= i < log.len() && log[i] is Binary implies spec_handshake(
        script,
        0,
    ) is Established && i >= 1 by {
        assert(log[0] == FrameModel::Text(spec_start_json(cfg)));
    }
}

/// A summary of a completed run: the sequence counter carried by the
/// termination message, and every delivery the dispatcher made, in
/// order.
#[derive(Debug)]
pub struct RunReport {
    pub last_seq_no: u64,
    pub deliveries: Vec<Delivery>,
}

/// A whole session over a scripted transport and audio source:
/// announces the session, waits for the acknowledgement, drains the
/// audio source (winding down with exactly one termination message),
/// then dispatches inbound events until the terminal event. Success
/// requires both sides to have completed: the termination message sent
/// and the terminal event observed.
pub fn run_session(
    cfg: &SessionConfig,
    t: &mut ScriptedTransport,
    src: &mut ScriptedSource,
    reg: &EventHandlers,
) -> (r: Result<RunReport, SessionError>)
    ensures
        final(t).spec_sent() == old(t).spec_sent() + spec_run_sent(
            *cfg,
            old(t).spec_incoming(),
            old(src).spec_chunks(),
        ),
        match spec_handshake(old(t).spec_incoming(), 0) {
            HandshakeOutcome::Established { consumed, payload } => {
                if spec_dispatch_ok(old(t).spec_incoming().skip(consumed as int)) {
                    r matches Ok(rep) && rep.last_seq_no as nat == spec_audio_count(
                        old(src).spec_chunks(),
                    ) && deliveries_views(rep.deliveries@) == spec_hs_delivery(*reg, payload)
                        + spec_dispatch_deliveries(
                        old(t).spec_incoming().skip(consumed as int),
                        *reg,
                    )
                } else {
                    r == Err::<RunReport, SessionError>(SessionError::PeerClosed)
                }
            },
            HandshakeOutcome::TimedOut { .. } => r == Err::<RunReport, SessionError>(
                SessionError::HandshakeTimeout,
            ),
            HandshakeOutcome::Closed { .. } => r == Err::<RunReport, SessionError>(
                SessionError::HandshakeClosed,
            ),
        },
{
    let ghost script = t.spec_incoming();
    let ghost chunks = src.spec_chunks();
    let start = start_recognition_frame(cfg);
    t.send(start);
    let mut deliveries: Vec<Delivery> = Vec::new();
    proof {
        assert(deliveries_views(deliveries@) =~= Seq::<DeliveryModel>::empty());
    }
    match wait_for_start(t, reg, &mut deliveries) {
        Err(e) => {
            proof {
                assert(t.spec_sent() =~= old(t).spec_sent() + spec_run_sent(
                    *cfg,
                    script,
                    chunks,
                ));
            }
            return Err(e);
        },
        Ok(()) => {},
    }
    let ghost hs_deliv = deliveries_views(deliveries@);
    let last_seq_no = send_audio(t, src);
    proof {
        assert(t.spec_sent() =~= old(t).spec_sent() + spec_run_sent(*cfg, script, chunks));
    }
    let ghost rem = t.spec_incoming();
    match process_messages(t, reg, &mut deliveries) {
        Ok(()) => {
            proof {
                assert(deliveries_views(deliveries@) =~= hs_deliv + spec_dispatch_deliveries(
                    rem,
                    *reg,
                ));
            }
            Ok(RunReport { last_seq_no, deliveries })
        },
        Err(e) => Err(e),
    }
}

/// The state of a handshake wait driven by an external connection loop:
/// how many non-matching frames have been tolerated so far.
pub struct HandshakeWait {
    retries: u64,
}

/// What one handshake step decided about one inbound frame.
#[derive(Clone, Copy, Debug, Eq, PartialEq, Structural)]
pub enum HandshakeStep {
    /// The frame is the acknowledgement; streaming may begin.
    Established,
    /// A non-matching frame within the retry bound; keep waiting.
    Continue,
    /// The retry bound is exhausted; the run aborts.
    TimedOut,
}

impl HandshakeWait {
    /// How many non-matching frames have been seen.
    pub closed spec fn spec_retries(self) -> nat {
        self.retries as nat
    }

    /// A fresh wait that has tolerated nothing yet.
    pub fn new() -> (w: HandshakeWait)
        ensures
            w.spec_retries() == 0,
    {
        HandshakeWait { retries: 0 }
    }

    /// Decides one step of the handshake wait: the acknowledgement
    /// establishes the session; any other frame counts against the
    /// retry bound, which exhausted makes the wait time out.
    pub fn on_frame(&mut self, f: &Frame) -> (v: HandshakeStep)
        ensures
            spec_decode_frame(f@) == Some(ServerMessages::RecognitionStarted) ==> v
                == HandshakeStep::Established && final(self).spec_retries() == old(self).spec_retries(),
            spec_decode_frame(f@) != Some(ServerMessages::RecognitionStarted) && old(self).spec_retries() >= HANDSHAKE_RETRY_BOUND ==> v == HandshakeStep::TimedOut && final(self).spec_retries() == old(self).spec_retries(),
            spec_decode_frame(f@) != Some(ServerMessages::RecognitionStarted) && old(self).spec_retries() < HANDSHAKE_RETRY_BOUND ==> v == HandshakeStep::Continue && final(self).spec_retries() == old(self).spec_retries() + 1,
    {
        let matched = match decode_frame(f) {
            Ok(k) => k == ServerMessages::RecognitionStarted,
            Err(_) => false,
        };
        if matched {
            HandshakeStep::Established
        } else if self.retries >= HANDSHAKE_RETRY_BOUND {
            HandshakeStep::TimedOut
        } else {
            self.retries = self.retries + 1;
            HandshakeStep::Continue
        }
    }
}

/// What the audio sender hands to the transport for one read outcome.
pub enum SendAction {
    /// Transmit this audio frame and carry on reading.
    Audio(Frame),
    /// Transmit this termination message and stop; no further reads.
    Terminate(Frame),
}

/// One decision of the audio sender, for a driver that owns the real
/// source and connection: a non-empty chunk becomes an audio frame and
/// bumps the counter by one; an empty read, exhaustion or a read error
/// becomes the termination message carrying the counter verbatim.
pub fn audio_step(seq_no: u64, outcome: ReadOutcome) -> (r: (SendAction, u64))
    requires
        seq_no < u64::MAX,
    ensures
        (outcome matches ReadOutcome::Chunk(c) && c@.len() > 0) ==> (outcome matches
            ReadOutcome::Chunk(c) && r.0 matches SendAction::Audio(f) && f@ == FrameModel::Binary(
            c@,
        ) && r.1 == seq_no + 1),
        !(outcome matches ReadOutcome::Chunk(c) && c@.len() > 0) ==> (r.0 matches
            SendAction::Terminate(f) && f@ == FrameModel::Text(spec_eos_json(seq_no as nat)) && r.1
            == seq_no),
{
    match outcome {
        ReadOutcome::Chunk(c) => {
            if c.len() > 0 {
                (SendAction::Audio(encode_audio(c)), seq_no + 1)
            } else {
                (SendAction::Terminate(end_of_stream_frame(seq_no)), seq_no)
            }
        },
        ReadOutcome::End => (SendAction::Terminate(end_of_stream_frame(seq_no)), seq_no),
        ReadOutcome::Failed => (SendAction::Terminate(end_of_stream_frame(seq_no)), seq_no),
    }
}

/// Whether a failed send should be attempted again: transient failures
/// are retried up to the bounded limit before becoming fatal.
pub fn should_retry_send(attempts: u64) -> (r: bool)
    ensures
        r == (attempts < crate::SEND_RETRY_LIMIT),
{
    attempts < crate::SEND_RETRY_LIMIT
}

} // verus!
