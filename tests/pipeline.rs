use stream_mux::descriptor::{Format, StreamData};
use stream_mux::fetch::{FetchAction, FetchEvent, FetchState, FetchTask};
use stream_mux::job::{Job, JobAction, JobError, JobEvent, JobState};

fn plain_data(formats: Vec<Format>) -> StreamData {
    StreamData { title: None, fulltitle: None, formats, subtitles: vec![], thumbnails: vec![] }
}

fn running_job() -> Job {
    let mut job = Job::new();
    assert_eq!(job.handle(JobEvent::Selected { found: true }), JobAction::StartFetching);
    assert_eq!(job.handle(JobEvent::Spawned), JobAction::Nothing);
    assert_eq!(job.state, JobState::Muxing { killing: false });
    job
}

#[test]
fn fetch_writes_every_chunk_in_order() {
    let body: Vec<Vec<u8>> = vec![vec![1, 2, 3], vec![], vec![4], vec![5, 6]];
    let mut task = FetchTask::new(false);
    let mut written: Vec<u8> = Vec::new();
    for chunk in body.iter() {
        match task.on_event(FetchEvent::Chunk(chunk.clone())) {
            FetchAction::Write(bytes) => written.extend_from_slice(&bytes),
            other => panic!("unexpected {:?}", other),
        }
    }
    assert_eq!(task.on_event(FetchEvent::EndOfBody), FetchAction::Stop);
    assert_eq!(written, vec![1, 2, 3, 4, 5, 6]);
    assert_eq!(task.state, FetchState::Finished);
    assert!(task.is_stopped());
    assert_eq!(task.on_event(FetchEvent::Chunk(vec![9])), FetchAction::Stop);
}

#[test]
fn mandatory_fetch_error_cancels_job() {
    let mut task = FetchTask::new(false);
    assert_eq!(task.on_event(FetchEvent::Chunk(vec![1])), FetchAction::Write(vec![1]));
    assert_eq!(task.on_event(FetchEvent::TransportError), FetchAction::SignalKill);
    assert_eq!(task.state, FetchState::Failed);
    let mut job = running_job();
    assert_eq!(job.handle(JobEvent::KillSignaled), JobAction::KillProcess);
    assert_eq!(job.handle(JobEvent::KillSignaled), JobAction::Nothing);
    assert_eq!(job.handle(JobEvent::ProcessExited), JobAction::Finish);
    assert_eq!(job.state, JobState::Cancelled);
    assert_eq!(job.handle(JobEvent::Spawned), JobAction::Nothing);
    assert_eq!(job.state, JobState::Cancelled);
}

#[test]
fn optional_fetch_error_lets_job_complete() {
    let mut task = FetchTask::new(true);
    assert_eq!(task.on_event(FetchEvent::TransportError), FetchAction::Stop);
    assert!(task.is_stopped());
    let mut job = running_job();
    assert_eq!(job.handle(JobEvent::ProcessExited), JobAction::Finish);
    assert_eq!(job.state, JobState::Completed);
}

#[test]
fn kill_that_fails_is_reported() {
    let mut job = running_job();
    assert_eq!(job.handle(JobEvent::KillSignaled), JobAction::KillProcess);
    assert_eq!(job.handle(JobEvent::KillFailed), JobAction::Finish);
    assert_eq!(job.state, JobState::Failed(JobError::ProcessKillFailed));
}

#[test]
fn setup_failure_fails_job() {
    let mut job = Job::new();
    job.handle(JobEvent::Selected { found: true });
    assert_eq!(job.handle(JobEvent::SetupFailed(JobError::PipeAllocationFailed)), JobAction::Finish);
    assert_eq!(job.state, JobState::Failed(JobError::PipeAllocationFailed));
    assert_eq!(job.handle(JobEvent::Spawned), JobAction::Nothing);
}

#[test]
fn no_eligible_stream_completes_without_muxing() {
    let high = Format {
        url: Some("v".to_string()),
        height: Some(1080),
        filesize: Some(1),
        asr: Some(96000),
        video_ext: Some("mp4".to_string()),
        audio_ext: Some("m4a".to_string()),
        language: None,
    };
    let mut job = Job::new();
    let (action, set) = job.select(&plain_data(vec![high]));
    assert_eq!(action, JobAction::Finish);
    assert!(set.is_none());
    assert_eq!(job.state, JobState::Completed);
    assert_eq!(job.handle(JobEvent::Spawned), JobAction::Nothing);
    assert_eq!(job.state, JobState::Completed);
}

#[test]
fn selection_with_primary_starts_fetching() {
    let v = Format {
        url: Some("v".to_string()),
        height: Some(360),
        filesize: Some(1),
        asr: None,
        video_ext: Some("webm".to_string()),
        audio_ext: None,
        language: None,
    };
    let mut job = Job::new();
    let (action, set) = job.select(&plain_data(vec![v]));
    assert_eq!(action, JobAction::StartFetching);
    assert_eq!(set.unwrap().title, "unknown");
    assert_eq!(job.state, JobState::Fetching);
    let (again, none) = job.select(&plain_data(vec![]));
    assert_eq!(again, JobAction::Nothing);
    assert!(none.is_none());
}

#[test]
fn spawn_failure_fails_job() {
    let mut job = Job::new();
    job.handle(JobEvent::Selected { found: true });
    assert_eq!(job.handle(JobEvent::SetupFailed(JobError::ProcessSpawnFailed)), JobAction::Finish);
    assert_eq!(job.state, JobState::Failed(JobError::ProcessSpawnFailed));
    assert_eq!(job.handle(JobEvent::ProcessExited), JobAction::Nothing);
    assert_eq!(job.state, JobState::Failed(JobError::ProcessSpawnFailed));
}

#[test]
fn exit_before_kill_completes() {
    let mut job = running_job();
    assert_eq!(job.handle(JobEvent::ProcessExited), JobAction::Finish);
    assert_eq!(job.handle(JobEvent::KillSignaled), JobAction::Nothing);
    assert_eq!(job.state, JobState::Completed);
}
