//! In-memory collaborators for driving a session without a network: a
//! transport whose inbound side replays a fixed script and whose outbound
//! side records what was sent, and an audio source that hands out a fixed
//! list of reads.

use vstd::prelude::*;
use crate::codec::{Frame, FrameModel};

verus! {

/// The mathematical values of a sequence of frames.
pub open spec fn frames_views(s: Seq<Frame>) -> Seq<FrameModel> {
    s.map_values(|f: Frame| f@)
}

/// A duplex channel over fixed data: `receive` replays the scripted
/// inbound frames in order, `send` appends to a log of outbound frames.
pub struct ScriptedTransport {
    incoming: Vec<Frame>,
    sent: Vec<Frame>,
}

impl ScriptedTransport {
    /// Inbound frames not yet received, oldest first.
    pub closed spec fn spec_incoming(self) -> Seq<FrameModel> {
        frames_views(self.incoming@)
    }

    /// Every frame sent so far, in order.
    pub closed spec fn spec_sent(self) -> Seq<FrameModel> {
        frames_views(self.sent@)
    }

    /// A transport that will replay `script` and has sent nothing yet.
    pub fn new(script: Vec<Frame>) -> (t: ScriptedTransport)
        ensures
            t.spec_incoming() == frames_views(script@),
            t.spec_sent() == Seq::<FrameModel>::empty(),
    {
        let t = ScriptedTransport { incoming: script, sent: Vec::new() };
        proof {
            assert(t.spec_sent() =~= Seq::<FrameModel>::empty());
        }
        t
    }

    /// Hands a frame to the transport; it is appended to the sent log.
    pub fn send(&mut self, f: Frame)
        ensures
            final(self).spec_sent() == old(self).spec_sent().push(f@),
            final(self).spec_incoming() == old(self).spec_incoming(),
    {
        self.sent.push(f);
        proof {
            assert(self.spec_sent() =~= old(self).spec_sent().push(self.sent@.last()@));
        }
    }

    /// The next scripted inbound frame, or `None` once the script is
    /// exhausted (the peer has closed the connection).
    pub fn receive(&mut self) -> (r: Option<Frame>)
        ensures
            final(self).spec_sent() == old(self).spec_sent(),
            old(self).spec_incoming().len() == 0 ==> r is None && final(self).spec_incoming()
                == old(self).spec_incoming(),
            old(self).spec_incoming().len() > 0 ==> (match r {
                Some(f) => f@ == old(self).spec_incoming()[0] && final(self).spec_incoming()
                    == old(self).spec_incoming().drop_first(),
                None => false,
            }),
    {
        if self.incoming.len() > 0 {
            let f = self.incoming.remove(0);
            proof {
                assert(self.spec_incoming() =~= old(self).spec_incoming().drop_first());
            }
            Some(f)
        } else {
            None
        }
    }

    /// The outbound log, for inspection once a run is over.
    pub fn sent_frames(&self) -> (r: &Vec<Frame>)
        ensures
            frames_views(r@) == self.spec_sent(),
    {
        &self.sent
    }
}

/// What one read of the audio source produced.
pub enum ReadOutcome {
    /// The next chunk of audio bytes.
    Chunk(Vec<u8>),
    /// The source is exhausted; no further data will come.
    End,
    /// The read failed; the session winds down as on exhaustion.
    Failed,
}

/// An audio source that hands out a fixed list of chunks and then either
/// reports a clean end or a read error.
pub struct ScriptedSource {
    chunks: Vec<Vec<u8>>,
    fail_after: bool,
}

impl ScriptedSource {
    /// Chunks not yet read, oldest first.
    pub closed spec fn spec_chunks(self) -> Seq<Seq<u8>> {
        self.chunks@.map_values(|c: Vec<u8>| c@)
    }

    /// Whether the source reports a read error once the chunks are gone,
    /// instead of a clean end.
    pub closed spec fn spec_fails_after(self) -> bool {
        self.fail_after
    }

    /// A source that yields `chunks` and then ends cleanly.
    pub fn new(chunks: Vec<Vec<u8>>) -> (s: ScriptedSource)
        ensures
            s.spec_chunks() == chunks@.map_values(|c: Vec<u8>| c@),
            !s.spec_fails_after(),
    {
        ScriptedSource { chunks, fail_after: false }
    }

    /// A source that yields `chunks` and then fails its next read.
    pub fn with_read_error(chunks: Vec<Vec<u8>>) -> (s: ScriptedSource)
        ensures
            s.spec_chunks() == chunks@.map_values(|c: Vec<u8>| c@),
            s.spec_fails_after(),
    {
        ScriptedSource { chunks, fail_after: true }
    }

    /// The chunk list is held in memory, so its length is bounded.
    pub proof fn lemma_chunks_bounded(&self)
        ensures
            self.spec_chunks().len() <= usize::MAX,
    {
        broadcast use vstd::std_specs::vec::axiom_spec_len;

        assert(self.chunks@.len() == vstd::std_specs::vec::spec_vec_len(&self.chunks));
    }

    /// Reads once from the source.
    pub fn read(&mut self) -> (r: ReadOutcome)
        ensures
            final(self).spec_fails_after() == old(self).spec_fails_after(),
            old(self).spec_chunks().len() > 0 ==> (match r {
                ReadOutcome::Chunk(c) => c@ == old(self).spec_chunks()[0]
                    && final(self).spec_chunks() == old(self).spec_chunks().drop_first(),
                _ => false,
            }),
            old(self).spec_chunks().len() == 0 ==> final(self).spec_chunks()
                == old(self).spec_chunks() && (if old(self).spec_fails_after() {
                r is Failed
            } else {
                r is End
            }),
    {
        if self.chunks.len() > 0 {
            let c = self.chunks.remove(0);
            proof {
                assert(self.spec_chunks() =~= old(self).spec_chunks().drop_first());
            }
            ReadOutcome::Chunk(c)
        } else if self.fail_after {
            ReadOutcome::Failed
        } else {
            ReadOutcome::End
        }
    }
}

} // verus!
