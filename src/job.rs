//! The job orchestrator: select, fetch, spawn the mux process, and race its
//! exit against the kill signal. The orchestrator decides; the caller performs
//! each action and reports what happened.

use vstd::prelude::*;

use crate::descriptor::{StreamData, StreamDataView};
use crate::fetch::{fetch_step, Effect, FetchState, TransferEvent};
use crate::mux::{frame_rate_args, mux_args, pipe_input, primary_args};
use crate::pick::lemma_first_max;
use crate::selector::{
    audio_eligible, audio_key, audio_keys, best_audio, best_video, select_streams, stream_set_of,
    video_eligible, video_key, video_keys,
};
use crate::track::StreamSet;

verus! {

/// Why a job failed.
#[derive(Clone, Copy, Debug, PartialEq, Eq, Structural)]
pub enum JobError {
    /// A pipe could not be opened.
    PipeAllocationFailed,
    /// The mux process could not be started.
    ProcessSpawnFailed,
    /// The mux process did not stop when told to; it may still run.
    ProcessKillFailed,
}

#[derive(Clone, Copy, Debug, PartialEq, Eq, Structural)]
pub enum JobState {
    Selecting,
    Fetching,
    /// The mux process runs; `killing` once it has been told to stop.
    Muxing { killing: bool },
    Completed,
    Cancelled,
    Failed(JobError),
}

/// What the orchestrator learns.
#[derive(Clone, Copy, Debug, PartialEq, Eq, Structural)]
pub enum JobEvent {
    /// Selection ran; `found` when it chose a primary stream.
    Selected { found: bool },
    /// A pipe could not be opened or the process could not be started.
    SetupFailed(JobError),
    /// The mux process was started on the pipes.
    Spawned,
    /// The mux process exited.
    ProcessExited,
    /// A fetch task that may not fail raised the kill signal.
    KillSignaled,
    /// Telling the mux process to stop failed.
    KillFailed,
}

/// What the orchestrator asks for.
#[derive(Clone, Copy, Debug, PartialEq, Eq, Structural)]
pub enum JobAction {
    Nothing,
    /// Open the pipes, start one fetch task each, and start the mux process.
    StartFetching,
    /// Tell the mux process to stop, then wait for it to exit.
    KillProcess,
    /// The job is over.
    Finish,
}

pub open spec fn is_terminal(s: JobState) -> bool {
    s is Completed || s is Cancelled || s is Failed
}

/// One step of the orchestrator. Events that do not fit the state change
/// nothing.
pub open spec fn job_step(s: JobState, e: JobEvent) -> (JobState, JobAction) {
    match (s, e) {
        (JobState::Selecting, JobEvent::Selected { found }) => if found {
            (JobState::Fetching, JobAction::StartFetching)
        } else {
            (JobState::Completed, JobAction::Finish)
        },
        (JobState::Fetching, JobEvent::SetupFailed(err)) => (
            JobState::Failed(err),
            JobAction::Finish,
        ),
        (JobState::Fetching, JobEvent::Spawned) => (
            JobState::Muxing { killing: false },
            JobAction::Nothing,
        ),
        (JobState::Muxing { killing }, JobEvent::ProcessExited) => if killing {
            (JobState::Cancelled, JobAction::Finish)
        } else {
            (JobState::Completed, JobAction::Finish)
        },
        (JobState::Muxing { killing: false }, JobEvent::KillSignaled) => (
            JobState::Muxing { killing: true },
            JobAction::KillProcess,
        ),
        (JobState::Muxing { killing: true }, JobEvent::KillFailed) => (
            JobState::Failed(JobError::ProcessKillFailed),
            JobAction::Finish,
        ),
        _ => (s, JobAction::Nothing),
    }
}

/// How far along a state is; every change of state moves forward.
pub open spec fn progress(s: JobState) -> int {
    match s {
        JobState::Selecting => 0,
        JobState::Fetching => 1,
        JobState::Muxing { killing } => if killing {
            3
        } else {
            2
        },
        _ => 4,
    }
}

/// The running state, told to stop or not.
pub open spec fn muxing(killing: bool) -> JobState {
    JobState::Muxing { killing }
}

/// The outcome of selection as an event.
pub open spec fn selected(found: bool) -> JobEvent {
    JobEvent::Selected { found }
}

/// One job's orchestrator.
pub struct Job {
    pub state: JobState,
}

impl Job {
    /// A job about to select its streams.
    pub fn new() -> (r: Job)
        ensures
            r.state == JobState::Selecting,
    {
        Job { state: JobState::Selecting }
    }

    /// Takes one event and says what to do.
    pub fn handle(&mut self, e: JobEvent) -> (r: JobAction)
        ensures
            (final(self).state, r) == job_step(old(self).state, e),
    {
        let (next, action) = match (self.state, e) {
            (JobState::Selecting, JobEvent::Selected { found }) => if found {
                (JobState::Fetching, JobAction::StartFetching)
            } else {
                (JobState::Completed, JobAction::Finish)
            },
            (JobState::Fetching, JobEvent::SetupFailed(err)) => (
                JobState::Failed(err),
                JobAction::Finish,
            ),
            (JobState::Fetching, JobEvent::Spawned) => (
                JobState::Muxing { killing: false },
                JobAction::Nothing,
            ),
            (JobState::Muxing { killing }, JobEvent::ProcessExited) => if killing {
                (JobState::Cancelled, JobAction::Finish)
            } else {
                (JobState::Completed, JobAction::Finish)
            },
            (JobState::Muxing { killing: false }, JobEvent::KillSignaled) => (
                JobState::Muxing { killing: true },
                JobAction::KillProcess,
            ),
            (JobState::Muxing { killing: true }, JobEvent::KillFailed) => (
                JobState::Failed(JobError::ProcessKillFailed),
                JobAction::Finish,
            ),
            _ => (self.state, JobAction::Nothing),
        };
        self.state = next;
        action
    }

    /// Runs selection for a job that is selecting. With a primary stream the
    /// job goes on to fetch and the stream set is returned; without one there
    /// is nothing to do and the job completes. In any other state nothing
    /// happens.
    pub fn select(&mut self, data: &StreamData) -> (r: (JobAction, Option<StreamSet>))
        ensures
            old(self).state == JobState::Selecting ==> {
                &&& r.1 matches Some(set) ==> set@ == stream_set_of(data@)
                &&& r.1 is Some <==> stream_set_of(data@).primary is Some
                &&& (final(self).state, r.0) == job_step(
                    JobState::Selecting,
                    selected(stream_set_of(data@).primary is Some),
                )
            },
            old(self).state != JobState::Selecting ==> final(self).state == old(self).state
                && r == (JobAction::Nothing, None::<StreamSet>),
    {
        if !matches!(self.state, JobState::Selecting) {
            return (JobAction::Nothing, None);
        }
        let set = select_streams(data);
        let found = set.primary.is_some();
        let action = self.handle(JobEvent::Selected { found });
        if found {
            (action, Some(set))
        } else {
            (action, None)
        }
    }
}

/// The state after selection on a descriptor.
pub open spec fn after_selection(d: StreamDataView) -> (JobState, JobAction) {
    job_step(JobState::Selecting, selected(stream_set_of(d).primary is Some))
}

/// A job whose descriptor has neither an eligible video nor an eligible audio
/// format completes right after selection without asking for fetches or a mux
/// process, and stays completed whatever happens next.
pub proof fn lemma_nothing_to_do(d: StreamDataView)
    requires
        forall|k: int|
            0 <= k < d.formats.len() ==> !video_eligible(#[trigger] d.formats[k])
                && !audio_eligible(d.formats[k]),
    ensures
        stream_set_of(d).primary is None,
        after_selection(d) == (JobState::Completed, JobAction::Finish),
        forall|e: JobEvent| #[trigger] job_step(JobState::Completed, e).0 == JobState::Completed,
{
    let fs = d.formats;
    let vkeys = video_keys(fs);
    let akeys = audio_keys(fs);
    lemma_first_max(vkeys);
    lemma_first_max(akeys);
    assert(forall|j: int| 0 <= j < fs.len() ==> #[trigger] vkeys[j] == video_key(fs[j]));
    assert(forall|j: int| 0 <= j < fs.len() ==> #[trigger] akeys[j] == audio_key(fs[j]));
    if best_video(fs) is Some {
        let i = best_video(fs)->0;
        assert(vkeys[i] is Some);
    }
    if best_audio(fs) is Some {
        let i = best_audio(fs)->0;
        assert(akeys[i] is Some);
    }
}

/// When a fetch task that may not fail sees its transfer break, it raises the
/// kill signal; a running mux process is then told to stop, and the job ends
/// cancelled only once the process has exited (or failed, distinctly, when it
/// could not be stopped). Cancellation is reached in no other way.
pub proof fn lemma_mandatory_failure_cancels(s: JobState, e: JobEvent)
    ensures
        fetch_step(FetchState::Streaming, false, TransferEvent::Failure) == (
            FetchState::Failed,
            Effect::SignalKill,
        ),
        job_step(muxing(false), JobEvent::KillSignaled) == (
            muxing(true),
            JobAction::KillProcess,
        ),
        job_step(muxing(true), JobEvent::ProcessExited) == (
            JobState::Cancelled,
            JobAction::Finish,
        ),
        job_step(muxing(true), JobEvent::KillFailed) == (
            JobState::Failed(JobError::ProcessKillFailed),
            JobAction::Finish,
        ),
        job_step(s, e).0 == JobState::Cancelled && s != JobState::Cancelled ==> s
            == muxing(true) && e == JobEvent::ProcessExited,
{
}

/// The input of an optional thumbnail.
pub open spec fn thumbnail_input(slot: Option<u32>) -> Seq<Seq<char>> {
    match slot {
        Some(t) => pipe_input(t),
        None => seq![],
    }
}

/// A fetch task that may fail never raises the kill signal, so a job whose
/// only failing transfer is optional completes when the mux process exits;
/// and a job with no subtitle input passes no subtitle arguments.
pub proof fn lemma_optional_failure_completes(
    state: FetchState,
    event: TransferEvent,
    primary_slot: u32,
    primary_code: Option<Seq<char>>,
    subtitle_code: Option<Seq<char>>,
    thumbnail_slot: Option<u32>,
    audio_only: bool,
    output: Seq<char>,
)
    ensures
        fetch_step(state, true, event).1 != Effect::SignalKill,
        job_step(muxing(false), JobEvent::ProcessExited) == (
            JobState::Completed,
            JobAction::Finish,
        ),
        mux_args(primary_slot, primary_code, None, subtitle_code, thumbnail_slot, audio_only, output)
            == primary_args(primary_slot, primary_code, audio_only) + thumbnail_input(thumbnail_slot)
            + frame_rate_args(audio_only) + seq![output],
{
    assert(mux_args(primary_slot, primary_code, None, subtitle_code, thumbnail_slot, audio_only, output)
        =~= primary_args(primary_slot, primary_code, audio_only) + thumbnail_input(thumbnail_slot)
        + frame_rate_args(audio_only) + seq![output]);
}

/// Terminal states are never left, and every change of state moves forward,
/// so no state is visited twice.
pub proof fn lemma_no_state_revisited(s: JobState, e: JobEvent)
    ensures
        is_terminal(s) ==> job_step(s, e).0 == s,
        job_step(s, e).0 != s ==> progress(job_step(s, e).0) > progress(s),
{
}

} // verus!
