//! The discriminants of the messages a server can send during a session.

use vstd::prelude::*;

verus! {

/// Every kind of message the server emits, as named by the `message`
/// discriminant of the corresponding JSON frame.
#[derive(Clone, Copy, Debug, Eq, PartialEq, Structural, Hash)]
pub enum ServerMessages {
    RecognitionStarted,
    AudioAdded,
    AddPartialTranscript,
    AddTranscript,
    AddPartialTranslation,
    AddTranslation,
    EndOfTranscript,
    Info,
    Warning,
    Error,
}

impl ServerMessages {
    /// The characters of the wire discriminant for this message kind.
    pub open spec fn spec_name(self) -> Seq<char> {
        match self {
            ServerMessages::RecognitionStarted => "RecognitionStarted"@,
            ServerMessages::AudioAdded => "AudioAdded"@,
            ServerMessages::AddPartialTranscript => "AddPartialTranscript"@,
            ServerMessages::AddTranscript => "AddTranscript"@,
            ServerMessages::AddPartialTranslation => "AddPartialTranslation"@,
            ServerMessages::AddTranslation => "AddTranslation"@,
            ServerMessages::EndOfTranscript => "EndOfTranscript"@,
            ServerMessages::Info => "Info"@,
            ServerMessages::Warning => "Warning"@,
            ServerMessages::Error => "Error"@,
        }
    }

    /// The wire discriminant for this message kind.
    pub fn to_string(&self) -> (r: String)
        ensures
            r@ == self.spec_name(),
    {
        match self {
            ServerMessages::RecognitionStarted => "RecognitionStarted".to_owned(),
            ServerMessages::AudioAdded => "AudioAdded".to_owned(),
            ServerMessages::AddPartialTranscript => "AddPartialTranscript".to_owned(),
            ServerMessages::AddTranscript => "AddTranscript".to_owned(),
            ServerMessages::AddPartialTranslation => "AddPartialTranslation".to_owned(),
            ServerMessages::AddTranslation => "AddTranslation".to_owned(),
            ServerMessages::EndOfTranscript => "EndOfTranscript".to_owned(),
            ServerMessages::Info => "Info".to_owned(),
            ServerMessages::Warning => "Warning".to_owned(),
            ServerMessages::Error => "Error".to_owned(),
        }
    }
}

impl Default for ServerMessages {
    fn default() -> (r: ServerMessages)
        ensures
            r == ServerMessages::RecognitionStarted,
    {
        ServerMessages::RecognitionStarted
    }
}

} // verus!
