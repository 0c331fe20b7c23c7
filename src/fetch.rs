//! The decisions of one fetch task, which copies a streamed HTTP body into the
//! write end of a pipe. The task itself (the transfer, the pipe writes) runs
//! outside; it reports what it observes and carries out what it is told.

use vstd::prelude::*;

verus! {

/// What a fetch task observes on its transfer.
pub enum FetchEvent {
    /// The next piece of the body, in arrival order.
    Chunk(Vec<u8>),
    /// The transfer broke.
    TransportError,
    /// The body is complete.
    EndOfBody,
}

/// What the task does next.
#[derive(Debug, PartialEq, Eq)]
pub enum FetchAction {
    /// Write these bytes to the pipe, whole, and wait for the next event.
    Write(Vec<u8>),
    /// Raise the job's kill signal, then stop and close the pipe.
    SignalKill,
    /// Stop and close the pipe.
    Stop,
}

#[derive(Clone, Copy, Debug, PartialEq, Eq, Structural)]
pub enum FetchState {
    Streaming,
    Finished,
    Failed,
}

/// An event as a value.
pub enum TransferEvent {
    Data(Seq<u8>),
    Failure,
    End,
}

/// An action as a value.
pub enum Effect {
    Write(Seq<u8>),
    SignalKill,
    Stop,
}

impl View for FetchEvent {
    type V = TransferEvent;

    open spec fn view(&self) -> TransferEvent {
        match self {
            FetchEvent::Chunk(b) => TransferEvent::Data(b@),
            FetchEvent::TransportError => TransferEvent::Failure,
            FetchEvent::EndOfBody => TransferEvent::End,
        }
    }
}

impl View for FetchAction {
    type V = Effect;

    open spec fn view(&self) -> Effect {
        match self {
            FetchAction::Write(b) => Effect::Write(b@),
            FetchAction::SignalKill => Effect::SignalKill,
            FetchAction::Stop => Effect::Stop,
        }
    }
}

/// One step of a fetch task. While streaming, each chunk is written as it
/// came; a broken transfer stops the task and, for a track that may not fail,
/// raises the kill signal; the end of the body stops it. A stopped task stays
/// stopped.
pub open spec fn fetch_step(state: FetchState, fallible: bool, event: TransferEvent) -> (
    FetchState,
    Effect,
) {
    match state {
        FetchState::Streaming => match event {
            TransferEvent::Data(b) => (FetchState::Streaming, Effect::Write(b)),
            TransferEvent::Failure => (
                FetchState::Failed,
                if fallible {
                    Effect::Stop
                } else {
                    Effect::SignalKill
                },
            ),
            TransferEvent::End => (FetchState::Finished, Effect::Stop),
        },
        _ => (state, Effect::Stop),
    }
}

/// The state and actions after a run of events.
pub open spec fn run_fetch(state: FetchState, fallible: bool, events: Seq<TransferEvent>) -> (
    FetchState,
    Seq<Effect>,
)
    decreases events.len(),
{
    if events.len() == 0 {
        (state, seq![])
    } else {
        let (s, effects) = run_fetch(state, fallible, events.drop_last());
        let (next, effect) = fetch_step(s, fallible, events.last());
        (next, effects.push(effect))
    }
}

/// The bytes that a run of actions writes, in order.
pub open spec fn written(effects: Seq<Effect>) -> Seq<u8>
    decreases effects.len(),
{
    if effects.len() == 0 {
        seq![]
    } else {
        written(effects.drop_last()) + match effects.last() {
            Effect::Write(b) => b,
            _ => seq![],
        }
    }
}

/// The chunks of a body, one after the other.
pub open spec fn joined_chunks(chunks: Seq<Seq<u8>>) -> Seq<u8>
    decreases chunks.len(),
{
    if chunks.len() == 0 {
        seq![]
    } else {
        joined_chunks(chunks.drop_last()) + chunks.last()
    }
}

/// The events of a transfer that delivers `chunks` and completes.
pub open spec fn delivery(chunks: Seq<Seq<u8>>) -> Seq<TransferEvent> {
    chunks.map_values(|c: Seq<u8>| TransferEvent::Data(c)).push(TransferEvent::End)
}

/// The decision state of one fetch task.
pub struct FetchTask {
    /// A task whose failure must not abort the job.
    pub fallible: bool,
    pub state: FetchState,
}

impl FetchTask {
    /// A task that is about to stream.
    pub fn new(fallible: bool) -> (r: FetchTask)
        ensures
            r.fallible == fallible,
            r.state == FetchState::Streaming,
    {
        FetchTask { fallible, state: FetchState::Streaming }
    }

    /// Takes one observed event and says what to do.
    pub fn on_event(&mut self, event: FetchEvent) -> (r: FetchAction)
        ensures
            final(self).fallible == old(self).fallible,
            (final(self).state, r@) == fetch_step(old(self).state, old(self).fallible, event@),
    {
        match self.state {
            FetchState::Streaming => match event {
                FetchEvent::Chunk(bytes) => FetchAction::Write(bytes),
                FetchEvent::TransportError => {
                    self.state = FetchState::Failed;
                    if self.fallible {
                        FetchAction::Stop
                    } else {
                        FetchAction::SignalKill
                    }
                },
                FetchEvent::EndOfBody => {
                    self.state = FetchState::Finished;
                    FetchAction::Stop
                },
            },
            _ => FetchAction::Stop,
        }
    }

    /// Whether the task has stopped; its pipe is then closed.
    pub fn is_stopped(&self) -> (r: bool)
        ensures
            r == (self.state != FetchState::Streaming),
    {
        !matches!(self.state, FetchState::Streaming)
    }
}

/// While streaming, a run of chunks is written back whole and in order.
proof fn lemma_chunks_stream(chunks: Seq<Seq<u8>>, fallible: bool)
    ensures
        run_fetch(
            FetchState::Streaming,
            fallible,
            chunks.map_values(|c: Seq<u8>| TransferEvent::Data(c)),
        ).0 == FetchState::Streaming,
        written(
            run_fetch(
                FetchState::Streaming,
                fallible,
                chunks.map_values(|c: Seq<u8>| TransferEvent::Data(c)),
            ).1,
        ) == joined_chunks(chunks),
    decreases chunks.len(),
{
    let events = chunks.map_values(|c: Seq<u8>| TransferEvent::Data(c));
    if chunks.len() > 0 {
        let init = chunks.drop_last();
        lemma_chunks_stream(init, fallible);
        assert(events.drop_last() =~= init.map_values(|c: Seq<u8>| TransferEvent::Data(c)));
        let (s, effects) = run_fetch(FetchState::Streaming, fallible, events.drop_last());
        assert(run_fetch(FetchState::Streaming, fallible, events).1.drop_last() =~= effects);
    }
}

/// What a fetch task writes to its pipe over a complete transfer, in arrival
/// order, is exactly the body: every chunk once, nothing more. The task then
/// stops, closing the pipe.
pub proof fn lemma_pipe_round_trip(chunks: Seq<Seq<u8>>, fallible: bool)
    ensures
        run_fetch(FetchState::Streaming, fallible, delivery(chunks)).0 == FetchState::Finished,
        written(run_fetch(FetchState::Streaming, fallible, delivery(chunks)).1) == joined_chunks(
            chunks,
        ),
        run_fetch(FetchState::Streaming, fallible, delivery(chunks)).1.last() == Effect::Stop,
{
    let data = chunks.map_values(|c: Seq<u8>| TransferEvent::Data(c));
    lemma_chunks_stream(chunks, fallible);
    assert(delivery(chunks).drop_last() =~= data);
    let effects = run_fetch(FetchState::Streaming, fallible, delivery(chunks)).1;
    assert(effects.drop_last() =~= run_fetch(FetchState::Streaming, fallible, data).1);
}

} // verus!
