//! The decisions of the body relay: each chunk received from upstream is
//! forwarded as it comes, and once the relay has stopped (upstream ended or
//! failed, or the caller went away) no further chunk is pulled.

use vstd::prelude::*;

verus! {

/// What happened since the last step of the relay.
#[derive(Debug, Clone, PartialEq, Eq)]
pub enum BodyEvent {
    /// Upstream delivered a chunk of the body.
    Chunk(Vec<u8>),
    /// Upstream's body ended.
    End,
    /// Reading upstream's body failed.
    UpstreamFailed,
    /// The caller's connection is gone, so nothing more can be written to it.
    DownstreamClosed,
}

/// What the relay does in answer to an event.
#[derive(Debug, Clone, PartialEq, Eq)]
pub enum BodyAction {
    /// Write this chunk to the caller, then pull the next one.
    Forward(Vec<u8>),
    /// End the caller's body normally.
    Finish,
    /// End the caller's body with an error.
    Abort,
    /// Do nothing more: no further chunk is pulled from upstream.
    Stop,
}

/// The state of one body relay: whether it still pulls chunks from upstream.
#[derive(Debug, Clone, Copy, PartialEq, Eq)]
pub struct BodyRelay {
    pub open: bool,
}

/// One step of the relay: whether it stays open, and what it does.
pub open spec fn body_step(open: bool, ev: BodyEvent) -> (bool, BodyAction) {
    if !open {
        (false, BodyAction::Stop)
    } else {
        match ev {
            BodyEvent::Chunk(c) => (true, BodyAction::Forward(c)),
            BodyEvent::End => (false, BodyAction::Finish),
            BodyEvent::UpstreamFailed => (false, BodyAction::Abort),
            BodyEvent::DownstreamClosed => (false, BodyAction::Stop),
        }
    }
}

/// Running the relay over a sequence of events: the state it ends in and the
/// actions it took, in order.
pub open spec fn body_run(open: bool, evs: Seq<BodyEvent>) -> (bool, Seq<BodyAction>)
    decreases evs.len(),
{
    if evs.len() == 0 {
        (open, Seq::empty())
    } else {
        let (next, act) = body_step(open, evs[0]);
        let (last, rest) = body_run(next, evs.subrange(1, evs.len() as int));
        (last, seq![act] + rest)
    }
}

/// The bytes of a sequence of chunks, one after the other.
pub open spec fn chunk_bytes(chunks: Seq<Vec<u8>>) -> Seq<u8>
    decreases chunks.len(),
{
    if chunks.len() == 0 {
        Seq::empty()
    } else {
        chunks[0]@ + chunk_bytes(chunks.subrange(1, chunks.len() as int))
    }
}

/// The bytes that a sequence of actions writes to the caller.
pub open spec fn forwarded_bytes(acts: Seq<BodyAction>) -> Seq<u8>
    decreases acts.len(),
{
    if acts.len() == 0 {
        Seq::empty()
    } else {
        let rest = forwarded_bytes(acts.subrange(1, acts.len() as int));
        match acts[0] {
            BodyAction::Forward(c) => c@ + rest,
            _ => rest,
        }
    }
}

/// Whether an action writes bytes to the caller.
pub open spec fn is_forward(a: BodyAction) -> bool {
    a is Forward
}

impl BodyRelay {
    /// A relay that has not yet received anything.
    pub fn new() -> (r: BodyRelay)
        ensures
            r.open,
    {
        BodyRelay { open: true }
    }

    /// Whether another chunk is to be pulled from upstream.
    pub fn wants_more(&self) -> (r: bool)
        ensures
            r == self.open,
    {
        self.open
    }

    /// Answers one event, and moves to the next state.
    pub fn step(&mut self, ev: BodyEvent) -> (r: BodyAction)
        ensures
            (final(self).open, r) == body_step(old(self).open, ev),
    {
        if !self.open {
            return BodyAction::Stop;
        }
        match ev {
            BodyEvent::Chunk(c) => BodyAction::Forward(c),
            BodyEvent::End => {
                self.open = false;
                BodyAction::Finish
            },
            BodyEvent::UpstreamFailed => {
                self.open = false;
                BodyAction::Abort
            },
            BodyEvent::DownstreamClosed => {
                self.open = false;
                BodyAction::Stop
            },
        }
    }
}

/// Once the relay has stopped, whatever follows, it stays stopped and writes
/// nothing more.
pub proof fn lemma_stopped_relay_stays_stopped(evs: Seq<BodyEvent>)
    ensures
        !body_run(false, evs).0,
        body_run(false, evs).1.len() == evs.len(),
        forall|i: int|
            0 <= i < evs.len() ==> #[trigger] body_run(false, evs).1[i] == BodyAction::Stop,
    decreases evs.len(),
{
    if evs.len() > 0 {
        lemma_stopped_relay_stays_stopped(evs.subrange(1, evs.len() as int));
        let rest = body_run(false, evs.subrange(1, evs.len() as int)).1;
        assert forall|i: int| 0 <= i < evs.len() implies #[trigger] body_run(false, evs).1[i]
            == BodyAction::Stop by {
            if i > 0 {
                assert(body_run(false, evs).1[i] == rest[i - 1]);
            }
        }
    }
}

/// When the caller goes away mid-stream, the relay stops pulling: after that
/// event it is closed, and nothing it does afterwards forwards a chunk.
pub proof fn lemma_cancel_stops_reads(open: bool, rest: Seq<BodyEvent>)
    ensures
        ({
            let (last, acts) = body_run(open, seq![BodyEvent::DownstreamClosed] + rest);
            &&& !last
            &&& acts.len() == rest.len() + 1
            &&& forall|i: int| 0 <= i < acts.len() ==> !is_forward(#[trigger] acts[i])
        }),
{
    let evs = seq![BodyEvent::DownstreamClosed] + rest;
    assert(evs.subrange(1, evs.len() as int) =~= rest);
    assert(evs[0] == BodyEvent::DownstreamClosed);
    lemma_stopped_relay_stays_stopped(rest);
    let acts = body_run(open, evs).1;
    assert forall|i: int| 0 <= i < acts.len() implies !is_forward(#[trigger] acts[i]) by {
        if i > 0 {
            assert(acts[i] == body_run(false, rest).1[i - 1]);
        }
    }
}

/// The events of an upstream body that arrives in these chunks and then ends.
pub open spec fn chunk_events(chunks: Seq<Vec<u8>>) -> Seq<BodyEvent> {
    chunks.map_values(|c: Vec<u8>| BodyEvent::Chunk(c)) + seq![BodyEvent::End]
}

/// An upstream body that arrives in chunks and ends is forwarded chunk by
/// chunk and then finished, so the caller receives exactly upstream's bytes,
/// wherever the chunk boundaries fall.
pub proof fn lemma_body_relayed_exactly(chunks: Seq<Vec<u8>>)
    ensures
        body_run(true, chunk_events(chunks)) == (
        false,
        chunks.map_values(|c: Vec<u8>| BodyAction::Forward(c)) + seq![BodyAction::Finish],
        ),
        forwarded_bytes(body_run(true, chunk_events(chunks)).1) == chunk_bytes(chunks),
    decreases chunks.len(),
{
    let evs = chunk_events(chunks);
    let acts = chunks.map_values(|c: Vec<u8>| BodyAction::Forward(c)) + seq![BodyAction::Finish];
    if chunks.len() == 0 {
        assert(evs =~= seq![BodyEvent::End]);
        assert(evs.subrange(1, evs.len() as int) =~= Seq::<BodyEvent>::empty());
        assert(acts =~= seq![BodyAction::Finish]);
        assert(seq![BodyAction::Finish] + Seq::<BodyAction>::empty() =~= seq![BodyAction::Finish]);
        assert(seq![BodyAction::Finish].subrange(1, 1) =~= Seq::<BodyAction>::empty());
        assert(body_run(false, Seq::<BodyEvent>::empty()) == (false, Seq::<BodyAction>::empty()));
        assert(body_run(true, evs) == (false, acts));
        assert(forwarded_bytes(Seq::<BodyAction>::empty()) == Seq::<u8>::empty());
        assert(forwarded_bytes(acts) == Seq::<u8>::empty());
    } else {
        let tail = chunks.subrange(1, chunks.len() as int);
        lemma_body_relayed_exactly(tail);
        assert(evs.subrange(1, evs.len() as int) =~= chunk_events(tail));
        assert(evs[0] == BodyEvent::Chunk(chunks[0]));
        let tail_acts = tail.map_values(|c: Vec<u8>| BodyAction::Forward(c)) + seq![
            BodyAction::Finish,
        ];
        assert(acts =~= seq![BodyAction::Forward(chunks[0])] + tail_acts);
        assert(acts.subrange(1, acts.len() as int) =~= tail_acts);
        assert(acts[0] == BodyAction::Forward(chunks[0]));
        assert(body_step(true, evs[0]) == (true, BodyAction::Forward(chunks[0])));
        assert(body_run(true, evs) == (false, acts));
        assert(forwarded_bytes(acts) == chunks[0]@ + forwarded_bytes(tail_acts));
        assert(chunk_bytes(chunks) == chunks[0]@ + chunk_bytes(tail));
    }
}

} // verus!
