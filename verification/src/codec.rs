//! The frame codec: decoding inbound event frames by their `message`
//! discriminant, and encoding outbound control and audio frames.

use vstd::prelude::*;
use vstd::utf8::encode_utf8;
use crate::config::SessionConfig;
use crate::models::audio_format::AudioFormat;
use crate::models::server_messages::ServerMessages;
use crate::models::transcription_config::{TranscriptionConfig, TranslationConfig};
use crate::wire::{bytes_eq, dec_of, json_escape, push_bytes, push_dec, push_json_escaped};

verus! {

/// One unit of transport payload: a text control/event frame or a binary
/// audio frame, each carrying its raw bytes.
#[derive(Clone, Debug, Eq, PartialEq)]
pub enum Frame {
    Text(Vec<u8>),
    Binary(Vec<u8>),
}

/// The mathematical value of a frame.
pub enum FrameModel {
    Text(Seq<u8>),
    Binary(Seq<u8>),
}

impl View for Frame {
    type V = FrameModel;

    open spec fn view(&self) -> FrameModel {
        match self {
            Frame::Text(p) => FrameModel::Text(p@),
            Frame::Binary(p) => FrameModel::Binary(p@),
        }
    }
}

/// The raw bytes a frame carries, whatever its flavour.
pub open spec fn spec_payload(f: FrameModel) -> Seq<u8> {
    match f {
        FrameModel::Text(p) => p,
        FrameModel::Binary(p) => p,
    }
}

/// Why an inbound frame could not be decoded into an event.
#[derive(Clone, Copy, Debug, Eq, PartialEq, Structural)]
pub enum DecodeError {
    /// The bytes are not a JSON object with a string `message` member.
    MissingDiscriminant,
    /// The discriminant names no message kind this library knows.
    UnknownDiscriminant,
}

/// The string value stored under `key` in the top-level JSON object that
/// `bytes` parse to, if they parse to an object holding a string there.
pub uninterp spec fn json_string_field_of(bytes: Seq<u8>, key: Seq<char>) -> Option<Seq<u8>>;

/// Relies on `serde_json::from_slice` (to parse the frame into a
/// `serde_json::Value`) and `serde_json::Value::get` (to look up `key`):
/// returns the string member stored under `key` in the top-level object,
/// and `None` when the bytes do not parse, the document is not an object,
/// the key is absent, or its value is not a string.
#[verifier::external_body]
fn json_string_field(bytes: &[u8], key: &str) -> (r: Option<Vec<u8>>)
    ensures
        match r {
            Some(v) => json_string_field_of(bytes@, key@) == Some(v@),
            None => json_string_field_of(bytes@, key@) is None,
        },
{
    match serde_json::from_slice::<serde_json::Value>(bytes) {
        Ok(value) => match value.get(key) {
            Some(serde_json::Value::String(s)) => Some(s.clone().into_bytes()),
            _ => None,
        },
        Err(_) => None,
    }
}

/// Which message kind a wire discriminant names, if any.
pub open spec fn spec_classify(d: Seq<u8>) -> Option<ServerMessages> {
    if d == encode_utf8("RecognitionStarted"@) {
        Some(ServerMessages::RecognitionStarted)
    } else if d == encode_utf8("AudioAdded"@) {
        Some(ServerMessages::AudioAdded)
    } else if d == encode_utf8("AddPartialTranscript"@) {
        Some(ServerMessages::AddPartialTranscript)
    } else if d == encode_utf8("AddTranscript"@) {
        Some(ServerMessages::AddTranscript)
    } else if d == encode_utf8("AddPartialTranslation"@) {
        Some(ServerMessages::AddPartialTranslation)
    } else if d == encode_utf8("AddTranslation"@) {
        Some(ServerMessages::AddTranslation)
    } else if d == encode_utf8("EndOfTranscript"@) {
        Some(ServerMessages::EndOfTranscript)
    } else if d == encode_utf8("Info"@) {
        Some(ServerMessages::Info)
    } else if d == encode_utf8("Warning"@) {
        Some(ServerMessages::Warning)
    } else if d == encode_utf8("Error"@) {
        Some(ServerMessages::Error)
    } else {
        None
    }
}

/// Maps a wire discriminant to the message kind it names.
pub fn classify(d: &[u8]) -> (r: Option<ServerMessages>)
    ensures
        r == spec_classify(d@),
{
    if bytes_eq(d, "RecognitionStarted".as_bytes()) {
        Some(ServerMessages::RecognitionStarted)
    } else if bytes_eq(d, "AudioAdded".as_bytes()) {
        Some(ServerMessages::AudioAdded)
    } else if bytes_eq(d, "AddPartialTranscript".as_bytes()) {
        Some(ServerMessages::AddPartialTranscript)
    } else if bytes_eq(d, "AddTranscript".as_bytes()) {
        Some(ServerMessages::AddTranscript)
    } else if bytes_eq(d, "AddPartialTranslation".as_bytes()) {
        Some(ServerMessages::AddPartialTranslation)
    } else if bytes_eq(d, "AddTranslation".as_bytes()) {
        Some(ServerMessages::AddTranslation)
    } else if bytes_eq(d, "EndOfTranscript".as_bytes()) {
        Some(ServerMessages::EndOfTranscript)
    } else if bytes_eq(d, "Info".as_bytes()) {
        Some(ServerMessages::Info)
    } else if bytes_eq(d, "Warning".as_bytes()) {
        Some(ServerMessages::Warning)
    } else if bytes_eq(d, "Error".as_bytes()) {
        Some(ServerMessages::Error)
    } else {
        None
    }
}

/// The event kind carried by raw frame bytes: the `message` discriminant,
/// classified.
pub open spec fn spec_decode(payload: Seq<u8>) -> Option<ServerMessages> {
    match json_string_field_of(payload, "message"@) {
        Some(d) => spec_classify(d),
        None => None,
    }
}

/// The event kind carried by a frame.
pub open spec fn spec_decode_frame(f: FrameModel) -> Option<ServerMessages> {
    spec_decode(spec_payload(f))
}

/// Decodes an inbound frame into the event kind it announces. A frame
/// whose discriminant is missing or unrecognized yields a `DecodeError`;
/// the caller treats that as non-fatal on ancillary messages.
pub fn decode_frame(f: &Frame) -> (r: Result<ServerMessages, DecodeError>)
    ensures
        r matches Ok(k) ==> spec_decode_frame(f@) == Some(k),
        r is Ok <==> spec_decode_frame(f@) is Some,
        r == Err::<ServerMessages, DecodeError>(DecodeError::MissingDiscriminant) ==> json_string_field_of(
            spec_payload(f@),
            "message"@,
        ) is None,
        r == Err::<ServerMessages, DecodeError>(DecodeError::UnknownDiscriminant) ==> (
        json_string_field_of(spec_payload(f@), "message"@) matches Some(d) && spec_classify(d) is None),
{
    let payload: &Vec<u8> = match f {
        Frame::Text(p) => p,
        Frame::Binary(p) => p,
    };
    match json_string_field(payload.as_slice(), "message") {
        Some(d) => match classify(d.as_slice()) {
            Some(k) => Ok(k),
            None => Err(DecodeError::UnknownDiscriminant),
        },
        None => Err(DecodeError::MissingDiscriminant),
    }
}

/// How a boolean is written in JSON.
pub open spec fn spec_bool_json(b: bool) -> Seq<u8> {
    if b {
        encode_utf8("true"@)
    } else {
        encode_utf8("false"@)
    }
}

fn push_bool_json(out: &mut Vec<u8>, b: bool)
    ensures
        final(out)@ == old(out)@ + spec_bool_json(b),
{
    if b {
        push_bytes(out, "true".as_bytes());
    } else {
        push_bytes(out, "false".as_bytes());
    }
}

/// A JSON string literal holding the escaped form of `s`.
pub open spec fn spec_quoted(s: Seq<u8>) -> Seq<u8> {
    encode_utf8("\""@) + json_escape(s) + encode_utf8("\""@)
}

fn push_quoted(out: &mut Vec<u8>, s: &str)
    ensures
        final(out)@ == old(out)@ + spec_quoted(encode_utf8(s@)),
{
    push_bytes(out, "\"".as_bytes());
    push_json_escaped(out, s.as_bytes());
    push_bytes(out, "\"".as_bytes());
    proof {
        assert(out@ =~= old(out)@ + spec_quoted(encode_utf8(s@)));
    }
}

/// The decimal rendering of a signed number.
pub open spec fn spec_dec_i32(n: int) -> Seq<u8> {
    if n < 0 {
        seq![45u8] + dec_of((-n) as nat)
    } else {
        dec_of(n as nat)
    }
}

fn push_dec_i32(out: &mut Vec<u8>, n: i32)
    ensures
        final(out)@ == old(out)@ + spec_dec_i32(n as int),
{
    if n < 0 {
        out.push(45);
        let m: i64 = -(n as i64);
        push_dec(out, m as u64);
        proof {
            assert(out@ =~= old(out)@ + spec_dec_i32(n as int));
        }
    } else {
        push_dec(out, n as u64);
    }
}

/// The `encoding` member of the audio-format object, present exactly
/// when an encoding is set.
pub open spec fn spec_encoding_part(a: AudioFormat) -> Seq<u8> {
    match a.encoding {
        Some(e) => encode_utf8("\"encoding\":\""@) + encode_utf8(e.spec_wire_name())
            + encode_utf8("\","@),
        None => Seq::<u8>::empty(),
    }
}

fn push_encoding_part(out: &mut Vec<u8>, a: &AudioFormat)
    ensures
        final(out)@ == old(out)@ + spec_encoding_part(*a),
{
    match &a.encoding {
        Some(e) => {
            push_bytes(out, "\"encoding\":\"".as_bytes());
            push_bytes(out, e.wire_name().as_bytes());
            push_bytes(out, "\",".as_bytes());
            proof {
                assert(out@ =~= old(out)@ + spec_encoding_part(*a));
            }
        },
        None => {},
    }
}

/// The `sample_rate` member of the audio-format object, present exactly
/// when a sample rate is set.
pub open spec fn spec_sample_rate_part(a: AudioFormat) -> Seq<u8> {
    match a.sample_rate {
        Some(r) => encode_utf8("\"sample_rate\":"@) + spec_dec_i32(r as int) + encode_utf8(","@),
        None => Seq::<u8>::empty(),
    }
}

fn push_sample_rate_part(out: &mut Vec<u8>, a: &AudioFormat)
    ensures
        final(out)@ == old(out)@ + spec_sample_rate_part(*a),
{
    match a.sample_rate {
        Some(r) => {
            push_bytes(out, "\"sample_rate\":".as_bytes());
            push_dec_i32(out, r);
            push_bytes(out, ",".as_bytes());
            proof {
                assert(out@ =~= old(out)@ + spec_sample_rate_part(*a));
            }
        },
        None => {},
    }
}

/// The JSON object announcing the audio format, with optional members
/// present exactly when they are set.
pub open spec fn spec_audio_format_json(a: AudioFormat) -> Seq<u8> {
    encode_utf8("{"@) + spec_encoding_part(a) + spec_sample_rate_part(a) + encode_utf8(
        "\"type\":\""@,
    ) + encode_utf8(a.type_value.spec_wire_name()) + encode_utf8("\"}"@)
}

fn push_audio_format_json(out: &mut Vec<u8>, a: &AudioFormat)
    ensures
        final(out)@ == old(out)@ + spec_audio_format_json(*a),
{
    push_bytes(out, "{".as_bytes());
    push_encoding_part(out, a);
    push_sample_rate_part(out, a);
    push_bytes(out, "\"type\":\"".as_bytes());
    push_bytes(out, a.type_value.wire_name().as_bytes());
    push_bytes(out, "\"}".as_bytes());
    proof {
        assert(out@ =~= old(out)@ + spec_audio_format_json(*a));
    }
}

/// The `domain` member of the transcription object, present exactly when
/// a domain is set.
pub open spec fn spec_domain_part(t: TranscriptionConfig) -> Seq<u8> {
    match t.domain {
        Some(d) => encode_utf8(",\"domain\":"@) + spec_quoted(encode_utf8(d@)),
        None => Seq::<u8>::empty(),
    }
}

fn push_domain_part(out: &mut Vec<u8>, t: &TranscriptionConfig)
    ensures
        final(out)@ == old(out)@ + spec_domain_part(*t),
{
    match &t.domain {
        Some(d) => {
            push_bytes(out, ",\"domain\":".as_bytes());
            push_quoted(out, d.as_str());
            proof {
                assert(out@ =~= old(out)@ + spec_domain_part(*t));
            }
        },
        None => {},
    }
}

/// The `enable_entities` member, present exactly when set.
pub open spec fn spec_entities_part(t: TranscriptionConfig) -> Seq<u8> {
    match t.enable_entities {
        Some(b) => encode_utf8(",\"enable_entities\":"@) + spec_bool_json(b),
        None => Seq::<u8>::empty(),
    }
}

fn push_entities_part(out: &mut Vec<u8>, t: &TranscriptionConfig)
    ensures
        final(out)@ == old(out)@ + spec_entities_part(*t),
{
    match t.enable_entities {
        Some(b) => {
            push_bytes(out, ",\"enable_entities\":".as_bytes());
            push_bool_json(out, b);
            proof {
                assert(out@ =~= old(out)@ + spec_entities_part(*t));
            }
        },
        None => {},
    }
}

/// The `enable_partials` member, present exactly when set.
pub open spec fn spec_partials_part(t: TranscriptionConfig) -> Seq<u8> {
    match t.enable_partials {
        Some(b) => encode_utf8(",\"enable_partials\":"@) + spec_bool_json(b),
        None => Seq::<u8>::empty(),
    }
}

fn push_partials_part(out: &mut Vec<u8>, t: &TranscriptionConfig)
    ensures
        final(out)@ == old(out)@ + spec_partials_part(*t),
{
    match t.enable_partials {
        Some(b) => {
            push_bytes(out, ",\"enable_partials\":".as_bytes());
            push_bool_json(out, b);
            proof {
                assert(out@ =~= old(out)@ + spec_partials_part(*t));
            }
        },
        None => {},
    }
}

/// The `output_locale` member, present exactly when set.
pub open spec fn spec_locale_part(t: TranscriptionConfig) -> Seq<u8> {
    match t.output_locale {
        Some(l) => encode_utf8(",\"output_locale\":"@) + spec_quoted(encode_utf8(l@)),
        None => Seq::<u8>::empty(),
    }
}

fn push_locale_part(out: &mut Vec<u8>, t: &TranscriptionConfig)
    ensures
        final(out)@ == old(out)@ + spec_locale_part(*t),
{
    match &t.output_locale {
        Some(l) => {
            push_bytes(out, ",\"output_locale\":".as_bytes());
            push_quoted(out, l.as_str());
            proof {
                assert(out@ =~= old(out)@ + spec_locale_part(*t));
            }
        },
        None => {},
    }
}

/// The JSON object announcing the transcription options, with optional
/// members present exactly when they are set.
pub open spec fn spec_transcription_json(t: TranscriptionConfig) -> Seq<u8> {
    encode_utf8("{\"language\":"@) + spec_quoted(encode_utf8(t.language@)) + spec_domain_part(t)
        + spec_entities_part(t) + spec_partials_part(t) + spec_locale_part(t) + encode_utf8("}"@)
}

fn push_transcription_json(out: &mut Vec<u8>, t: &TranscriptionConfig)
    ensures
        final(out)@ == old(out)@ + spec_transcription_json(*t),
{
    push_bytes(out, "{\"language\":".as_bytes());
    push_quoted(out, t.language.as_str());
    push_domain_part(out, t);
    push_entities_part(out, t);
    push_partials_part(out, t);
    push_locale_part(out, t);
    push_bytes(out, "}".as_bytes());
    proof {
        assert(out@ =~= old(out)@ + spec_transcription_json(*t));
    }
}

/// A comma-separated list of JSON string literals.
pub open spec fn spec_langs_json(xs: Seq<String>) -> Seq<u8>
    decreases xs.len(),
{
    if xs.len() == 0 {
        Seq::<u8>::empty()
    } else if xs.len() == 1 {
        spec_quoted(encode_utf8(xs[0]@))
    } else {
        spec_quoted(encode_utf8(xs[0]@)) + encode_utf8(","@) + spec_langs_json(xs.drop_first())
    }
}

proof fn lemma_langs_json_push(xs: Seq<String>, x: String)
    ensures
        spec_langs_json(xs.push(x)) == if xs.len() == 0 {
            spec_quoted(encode_utf8(x@))
        } else {
            spec_langs_json(xs) + encode_utf8(","@) + spec_quoted(encode_utf8(x@))
        },
    decreases xs.len(),
{
    if xs.len() == 0 {
        assert(xs.push(x)[0] == x);
        assert(spec_langs_json(xs.push(x)) =~= spec_quoted(encode_utf8(x@)));
    } else {
        assert(xs.push(x).drop_first() =~= xs.drop_first().push(x));
        lemma_langs_json_push(xs.drop_first(), x);
        if xs.len() == 1 {
            assert(spec_langs_json(xs.push(x)) =~= spec_langs_json(xs) + encode_utf8(","@)
                + spec_quoted(encode_utf8(x@)));
        } else {
            assert(spec_langs_json(xs.push(x)) =~= spec_langs_json(xs) + encode_utf8(","@)
                + spec_quoted(encode_utf8(x@)));
        }
    }
}

fn push_langs_json(out: &mut Vec<u8>, xs: &Vec<String>)
    ensures
        final(out)@ == old(out)@ + spec_langs_json(xs@),
{
    let ghost orig = out@;
    let mut i: usize = 0;
    while i < xs.len()
        invariant
            i <= xs@.len(),
            out@ == orig + spec_langs_json(xs@.subrange(0, i as int)),
        decreases xs@.len() - i,
    {
        if i > 0 {
            push_bytes(out, ",".as_bytes());
        }
        push_quoted(out, xs[i].as_str());
        proof {
            lemma_langs_json_push(xs@.subrange(0, i as int), xs@[i as int]);
            assert(xs@.subrange(0, i + 1) =~= xs@.subrange(0, i as int).push(xs@[i as int]));
            assert(out@ =~= orig + spec_langs_json(xs@.subrange(0, i + 1)));
        }
        i = i + 1;
    }
    proof {
        assert(xs@.subrange(0, xs@.len() as int) =~= xs@);
    }
}

/// The JSON object announcing the translation options.
pub open spec fn spec_translation_json(t: TranslationConfig) -> Seq<u8> {
    encode_utf8("{\"target_languages\":["@) + spec_langs_json(t.target_languages@) + encode_utf8(
        "]"@,
    ) + (match t.enable_partials {
        Some(b) => encode_utf8(",\"enable_partials\":"@) + spec_bool_json(b),
        None => Seq::<u8>::empty(),
    }) + encode_utf8("}"@)
}

fn push_translation_json(out: &mut Vec<u8>, t: &TranslationConfig)
    ensures
        final(out)@ == old(out)@ + spec_translation_json(*t),
{
    push_bytes(out, "{\"target_languages\":[".as_bytes());
    push_langs_json(out, &t.target_languages);
    push_bytes(out, "]".as_bytes());
    match t.enable_partials {
        Some(b) => {
            push_bytes(out, ",\"enable_partials\":".as_bytes());
            push_bool_json(out, b);
        },
        None => {},
    }
    push_bytes(out, "}".as_bytes());
    proof {
        assert(out@ =~= old(out)@ + spec_translation_json(*t));
    }
}

/// The bytes of the termination control message carrying the final
/// sequence number.
pub open spec fn spec_eos_json(n: nat) -> Seq<u8> {
    encode_utf8("{\"last_seq_no\":"@) + dec_of(n) + encode_utf8(",\"message\":\"EndOfStream\"}"@)
}

/// Encodes the termination control message for the given sequence number.
pub fn encode_end_of_stream(last_seq_no: u64) -> (r: Vec<u8>)
    ensures
        r@ == spec_eos_json(last_seq_no as nat),
{
    let mut out: Vec<u8> = Vec::new();
    push_bytes(&mut out, "{\"last_seq_no\":".as_bytes());
    push_dec(&mut out, last_seq_no);
    push_bytes(&mut out, ",\"message\":\"EndOfStream\"}".as_bytes());
    proof {
        assert(out@ =~= spec_eos_json(last_seq_no as nat));
    }
    out
}

/// The bytes of the session-start control message built from a session
/// configuration; a missing audio format or transcription configuration
/// falls back to the respective default object.
pub open spec fn spec_start_json(cfg: SessionConfig) -> Seq<u8> {
    encode_utf8("{\"message\":\"StartRecognition\",\"audio_format\":"@) + (
    match cfg.audio_format {
        Some(a) => spec_audio_format_json(a),
        None => encode_utf8("{\"type\":\"raw\"}"@),
    }) + encode_utf8(",\"transcription_config\":"@) + (match cfg.transcription_config {
        Some(t) => spec_transcription_json(t),
        None => encode_utf8("{\"language\":\"\"}"@),
    }) + (match cfg.translation_config {
        Some(t) => encode_utf8(",\"translation_config\":"@) + spec_translation_json(t),
        None => Seq::<u8>::empty(),
    }) + encode_utf8("}"@)
}

/// Encodes the session-start control message.
pub fn encode_start_recognition(cfg: &SessionConfig) -> (r: Vec<u8>)
    ensures
        r@ == spec_start_json(*cfg),
{
    let mut out: Vec<u8> = Vec::new();
    push_bytes(&mut out, "{\"message\":\"StartRecognition\",\"audio_format\":".as_bytes());
    match &cfg.audio_format {
        Some(a) => push_audio_format_json(&mut out, a),
        None => push_bytes(&mut out, "{\"type\":\"raw\"}".as_bytes()),
    }
    push_bytes(&mut out, ",\"transcription_config\":".as_bytes());
    match &cfg.transcription_config {
        Some(t) => push_transcription_json(&mut out, t),
        None => push_bytes(&mut out, "{\"language\":\"\"}".as_bytes()),
    }
    match &cfg.translation_config {
        Some(t) => {
            push_bytes(&mut out, ",\"translation_config\":".as_bytes());
            push_translation_json(&mut out, t);
        },
        None => {},
    }
    push_bytes(&mut out, "}".as_bytes());
    proof {
        assert(out@ =~= spec_start_json(*cfg));
    }
    out
}

/// The bytes of the mid-session configuration-update control message.
pub open spec fn spec_set_recognition_json(t: TranscriptionConfig) -> Seq<u8> {
    encode_utf8("{\"message\":\"SetRecognitionConfig\",\"transcription_config\":"@)
        + spec_transcription_json(t) + encode_utf8("}"@)
}

/// Encodes the configuration-update control message.
pub fn encode_set_recognition_config(t: &TranscriptionConfig) -> (r: Vec<u8>)
    ensures
        r@ == spec_set_recognition_json(*t),
{
    let mut out: Vec<u8> = Vec::new();
    push_bytes(&mut out, "{\"message\":\"SetRecognitionConfig\",\"transcription_config\":".as_bytes());
    push_transcription_json(&mut out, t);
    push_bytes(&mut out, "}".as_bytes());
    proof {
        assert(out@ =~= spec_set_recognition_json(*t));
    }
    out
}

/// Frames the session-start control message.
pub fn start_recognition_frame(cfg: &SessionConfig) -> (f: Frame)
    ensures
        f@ == FrameModel::Text(spec_start_json(*cfg)),
{
    Frame::Text(encode_start_recognition(cfg))
}

/// Frames the termination control message.
pub fn end_of_stream_frame(last_seq_no: u64) -> (f: Frame)
    ensures
        f@ == FrameModel::Text(spec_eos_json(last_seq_no as nat)),
{
    Frame::Text(encode_end_of_stream(last_seq_no))
}

/// Frames one chunk of audio.
pub fn encode_audio(chunk: Vec<u8>) -> (f: Frame)
    ensures
        f@ == FrameModel::Binary(chunk@),
{
    Frame::Binary(chunk)
}

} // verus!
