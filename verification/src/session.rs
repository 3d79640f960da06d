//! The public session object: holds the credential, the endpoint and the
//! handler registry, and runs the handshake → streaming → shutdown
//! lifecycle over a transport and an audio source.

use vstd::prelude::*;
use crate::config::SessionConfig;
use crate::engine::{run_session, RunReport, SessionError};
use crate::handlers::EventHandlers;
use crate::models::server_messages::ServerMessages;
use crate::scripted::{ScriptedSource, ScriptedTransport};

verus! {

/// The default realtime endpoint.
pub const DEFAULT_RT_URL: &'static str = "wss://eu2.rt.speechmatics.com/v2/en";

/// The default transcription language.
pub const DEFAULT_LANGUAGE: &'static str = "en";

/// The default sample rate announced for raw audio.
pub const DEFAULT_SAMPLE_RATE: i32 = 48000;

/// One realtime session: an authentication token, an endpoint address,
/// and the handler registry populated before `run`. A session is used
/// for a single run and then discarded.
pub struct RealtimeSession {
    pub auth_token: String,
    pub rt_url: String,
    handlers: EventHandlers,
}

impl RealtimeSession {
    /// The session's handler registry.
    pub closed spec fn spec_handlers(self) -> EventHandlers {
        self.handlers
    }

    /// The characters of the session's authentication token.
    pub closed spec fn spec_auth_token(self) -> Seq<char> {
        self.auth_token@
    }

    /// The characters of the session's endpoint address.
    pub closed spec fn spec_rt_url(self) -> Seq<char> {
        self.rt_url@
    }

    /// A session for the given token, against the given endpoint or the
    /// default one, with no handlers registered yet.
    pub fn new(auth_token: String, rt_url: Option<String>) -> (s: RealtimeSession)
        ensures
            s.spec_auth_token() == auth_token@,
            match rt_url {
                Some(u) => s.spec_rt_url() == u@,
                None => s.spec_rt_url() == DEFAULT_RT_URL@,
            },
            forall|k: ServerMessages| s.spec_handlers().spec_handler(k) is None,
    {
        let url = match rt_url {
            Some(u) => u,
            None => DEFAULT_RT_URL.to_owned(),
        };
        RealtimeSession { auth_token, rt_url: url, handlers: EventHandlers::new() }
    }

    /// Registers `id` as the handler for `kind`; only the most recently
    /// attached handler per kind is retained.
    pub fn add_event_handler(&mut self, kind: ServerMessages, id: u64)
        ensures
            final(self).spec_handlers() == old(self).spec_handlers().spec_set(kind, id),
            final(self).spec_auth_token() == old(self).spec_auth_token(),
            final(self).spec_rt_url() == old(self).spec_rt_url(),
    {
        self.handlers.attach(kind, id);
    }

    /// The handler currently registered for `kind`.
    pub fn handler_for(&self, kind: ServerMessages) -> (r: Option<u64>)
        ensures
            r == self.spec_handlers().spec_handler(kind),
    {
        self.handlers.handler_for(kind)
    }

    /// Runs the session over the given transport and audio source:
    /// announces the session, waits for the acknowledgement, streams the
    /// audio with its termination message, and dispatches inbound events
    /// to the registered handlers until the terminal event.
    pub fn run(
        &mut self,
        config: &SessionConfig,
        transport: &mut ScriptedTransport,
        source: &mut ScriptedSource,
    ) -> (r: Result<RunReport, SessionError>)
        ensures
            *final(self) == *old(self),
            final(transport).spec_sent() == old(transport).spec_sent()
                + crate::engine::spec_run_sent(
                *config,
                old(transport).spec_incoming(),
                old(source).spec_chunks(),
            ),
            match crate::engine::spec_handshake(old(transport).spec_incoming(), 0) {
                crate::engine::HandshakeOutcome::Established { consumed, payload } => {
                    if crate::engine::spec_dispatch_ok(
                        old(transport).spec_incoming().skip(consumed as int),
                    ) {
                        r matches Ok(rep) && rep.last_seq_no as nat
                            == crate::engine::spec_audio_count(old(source).spec_chunks())
                            && crate::engine::deliveries_views(rep.deliveries@)
                            == crate::engine::spec_hs_delivery(old(self).spec_handlers(), payload)
                            + crate::engine::spec_dispatch_deliveries(
                            old(transport).spec_incoming().skip(consumed as int),
                            old(self).spec_handlers(),
                        )
                    } else {
                        r == Err::<RunReport, SessionError>(SessionError::PeerClosed)
                    }
                },
                crate::engine::HandshakeOutcome::TimedOut { .. } => r == Err::<
                    RunReport,
                    SessionError,
                >(SessionError::HandshakeTimeout),
                crate::engine::HandshakeOutcome::Closed { .. } => r == Err::<
                    RunReport,
                    SessionError,
                >(SessionError::HandshakeClosed),
            },
    {
        run_session(config, transport, source, &self.handlers)
    }
}

} // verus!
