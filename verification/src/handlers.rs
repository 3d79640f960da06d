//! The per-session handler registry: at most one registered callback per
//! event kind, identified by a caller-chosen handler id. The registry maps
//! each decoded event to the id that should receive it; the embedding
//! application keeps the actual callbacks under those ids.

use vstd::prelude::*;
use crate::models::server_messages::ServerMessages;

verus! {

/// Maps each event kind to at most one registered handler id. Re-attaching
/// a handler for a kind replaces the previous one; only the latest is ever
/// invoked.
#[derive(Clone, Copy, Debug, Eq, PartialEq, Structural)]
pub struct EventHandlers {
    handle_recognition_started: Option<u64>,
    handle_audio_added: Option<u64>,
    handle_add_partial_transcript: Option<u64>,
    handle_add_transcript: Option<u64>,
    handle_add_partial_translation: Option<u64>,
    handle_add_translation: Option<u64>,
    handle_end_of_transcript: Option<u64>,
    handle_info: Option<u64>,
    handle_warning: Option<u64>,
    handle_error: Option<u64>,
}

impl EventHandlers {
    /// The handler registered for `kind`, if any.
    pub closed spec fn spec_handler(self, kind: ServerMessages) -> Option<u64> {
        match kind {
            ServerMessages::RecognitionStarted => self.handle_recognition_started,
            ServerMessages::AudioAdded => self.handle_audio_added,
            ServerMessages::AddPartialTranscript => self.handle_add_partial_transcript,
            ServerMessages::AddTranscript => self.handle_add_transcript,
            ServerMessages::AddPartialTranslation => self.handle_add_partial_translation,
            ServerMessages::AddTranslation => self.handle_add_translation,
            ServerMessages::EndOfTranscript => self.handle_end_of_transcript,
            ServerMessages::Info => self.handle_info,
            ServerMessages::Warning => self.handle_warning,
            ServerMessages::Error => self.handle_error,
        }
    }

    /// The registry after registering `id` for `kind`.
    pub closed spec fn spec_set(self, kind: ServerMessages, id: u64) -> EventHandlers {
        match kind {
            ServerMessages::RecognitionStarted => EventHandlers {
                handle_recognition_started: Some(id),
                ..self
            },
            ServerMessages::AudioAdded => EventHandlers { handle_audio_added: Some(id), ..self },
            ServerMessages::AddPartialTranscript => EventHandlers {
                handle_add_partial_transcript: Some(id),
                ..self
            },
            ServerMessages::AddTranscript => EventHandlers {
                handle_add_transcript: Some(id),
                ..self
            },
            ServerMessages::AddPartialTranslation => EventHandlers {
                handle_add_partial_translation: Some(id),
                ..self
            },
            ServerMessages::AddTranslation => EventHandlers {
                handle_add_translation: Some(id),
                ..self
            },
            ServerMessages::EndOfTranscript => EventHandlers {
                handle_end_of_transcript: Some(id),
                ..self
            },
            ServerMessages::Info => EventHandlers { handle_info: Some(id), ..self },
            ServerMessages::Warning => EventHandlers { handle_warning: Some(id), ..self },
            ServerMessages::Error => EventHandlers { handle_error: Some(id), ..self },
        }
    }

    /// An empty registry: no handler for any kind.
    pub fn new() -> (r: EventHandlers)
        ensures
            forall|k: ServerMessages| r.spec_handler(k) is None,
    {
        EventHandlers {
            handle_recognition_started: None,
            handle_audio_added: None,
            handle_add_partial_transcript: None,
            handle_add_transcript: None,
            handle_add_partial_translation: None,
            handle_add_translation: None,
            handle_end_of_transcript: None,
            handle_info: None,
            handle_warning: None,
            handle_error: None,
        }
    }

    /// Registers `id` as the handler for `kind`, replacing any handler
    /// previously registered for that kind and leaving every other kind
    /// untouched.
    pub fn attach(&mut self, kind: ServerMessages, id: u64)
        ensures
            *final(self) == old(self).spec_set(kind, id),
            final(self).spec_handler(kind) == Some(id),
            forall|k: ServerMessages|
                k != kind ==> final(self).spec_handler(k) == old(self).spec_handler(k),
    {
        match kind {
            ServerMessages::RecognitionStarted => {
                self.handle_recognition_started = Some(id);
            },
            ServerMessages::AudioAdded => {
                self.handle_audio_added = Some(id);
            },
            ServerMessages::AddPartialTranscript => {
                self.handle_add_partial_transcript = Some(id);
            },
            ServerMessages::AddTranscript => {
                self.handle_add_transcript = Some(id);
            },
            ServerMessages::AddPartialTranslation => {
                self.handle_add_partial_translation = Some(id);
            },
            ServerMessages::AddTranslation => {
                self.handle_add_translation = Some(id);
            },
            ServerMessages::EndOfTranscript => {
                self.handle_end_of_transcript = Some(id);
            },
            ServerMessages::Info => {
                self.handle_info = Some(id);
            },
            ServerMessages::Warning => {
                self.handle_warning = Some(id);
            },
            ServerMessages::Error => {
                self.handle_error = Some(id);
            },
        }
    }

    /// The handler currently registered for `kind`.
    pub fn handler_for(&self, kind: ServerMessages) -> (r: Option<u64>)
        ensures
            r == self.spec_handler(kind),
    {
        match kind {
            ServerMessages::RecognitionStarted => self.handle_recognition_started,
            ServerMessages::AudioAdded => self.handle_audio_added,
            ServerMessages::AddPartialTranscript => self.handle_add_partial_transcript,
            ServerMessages::AddTranscript => self.handle_add_transcript,
            ServerMessages::AddPartialTranslation => self.handle_add_partial_translation,
            ServerMessages::AddTranslation => self.handle_add_translation,
            ServerMessages::EndOfTranscript => self.handle_end_of_transcript,
            ServerMessages::Info => self.handle_info,
            ServerMessages::Warning => self.handle_warning,
            ServerMessages::Error => self.handle_error,
        }
    }
}

impl Default for EventHandlers {
    fn default() -> (r: EventHandlers)
        ensures
            forall|k: ServerMessages| r.spec_handler(k) is None,
    {
        EventHandlers::new()
    }
}

/// Law: registering a handler twice for the same kind leaves exactly the
/// registry that the second registration alone would have produced — only
/// the latest handler per kind is retained — and the registered kind is
/// then mapped to that latest handler.
pub proof fn lemma_reregister_replaces(
    r: EventHandlers,
    kind: ServerMessages,
    first: u64,
    second: u64,
)
    ensures
        r.spec_set(kind, first).spec_set(kind, second) == r.spec_set(kind, second),
        r.spec_set(kind, second).spec_handler(kind) == Some(second),
{
}


} // verus!
