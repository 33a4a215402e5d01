use vstd::prelude::*;
use vstd::string::*;
use crate::classify::{all_completed, all_terminal, first_in_progress, select_current_job};
use crate::models::{Job, Run, Timestamp};
use crate::render::{jobs_line_model, jobs_line_segments, steps_block_segments, steps_model};
use crate::style::{Segment, Tone, segments_model};

verus! {

/// How a watch ends.
#[derive(Clone, Copy, Debug, PartialEq, Eq, Structural)]
pub enum Outcome {
    /// The repository has no workflow runs.
    NoRunsFound,
    /// The latest run has no jobs.
    NoJobsFound,
    /// Every job of the latest run has completed.
    Completed,
    /// Fetching or decoding a response failed.
    FetchFailed,
}

impl Outcome {
    /// The message shown to the operator.
    pub open spec fn message_spec(self) -> Seq<char> {
        match self {
            Outcome::NoRunsFound => "No workflow runs found"@,
            Outcome::NoJobsFound => "No jobs found for the latest run"@,
            Outcome::Completed => "Completed all jobs"@,
            Outcome::FetchFailed => "Fetching the workflow status failed"@,
        }
    }

    /// Returns the message shown to the operator.
    pub fn message(&self) -> (r: String)
        ensures
            r@ == self.message_spec(),
    {
        match self {
            Outcome::NoRunsFound => String::from_str("No workflow runs found"),
            Outcome::NoJobsFound => String::from_str("No jobs found for the latest run"),
            Outcome::Completed => String::from_str("Completed all jobs"),
            Outcome::FetchFailed => String::from_str("Fetching the workflow status failed"),
        }
    }

    /// The process exit status: zero only for completion, and distinct for
    /// each other outcome.
    pub fn exit_code(&self) -> (r: i32)
        ensures
            (r == 0) == (*self == Outcome::Completed),
            *self == Outcome::FetchFailed ==> r == 1,
            *self == Outcome::NoRunsFound ==> r == 2,
            *self == Outcome::NoJobsFound ==> r == 3,
    {
        match self {
            Outcome::Completed => 0,
            Outcome::FetchFailed => 1,
            Outcome::NoRunsFound => 2,
            Outcome::NoJobsFound => 3,
        }
    }
}

/// Where the watch stands.
#[derive(Clone, Copy, Debug, PartialEq, Eq, Structural)]
pub enum DriverState {
    /// Waiting for the id of the latest run.
    AwaitingRun,
    /// Waiting for the jobs of a run.
    AwaitingJobs { run_id: i64 },
    /// Finished.
    Done { outcome: Outcome },
}

/// What the outside world reported back.
pub enum PollEvent {
    /// The latest run, if the repository has any.
    RunFetched { run: Option<Run> },
    /// The jobs of the run asked for.
    JobsFetched { jobs: Vec<Job> },
    /// A fetch or a decode failed.
    FetchFailed,
}

/// What the outside world is to do next.
pub enum PollAction {
    /// Fetch the latest run.
    FetchLatestRun,
    /// Fetch the jobs of a run.
    FetchJobs { run_id: i64 },
    /// Show a frame, wait one interval, then fetch the latest run again.
    EmitAndWait { frame: Vec<Segment> },
    /// Stop with an outcome.
    Finish { outcome: Outcome },
}

/// The notice shown when no job is running.
pub open spec fn no_current_job_notice() -> Seq<char> {
    "\nNo current job found"@
}

/// One progress frame: the jobs line, then the steps of the current job, or
/// a notice where no job is running.
pub open spec fn frame_model(jobs: Seq<Job>, now: Timestamp) -> Seq<(Seq<char>, Tone)> {
    jobs_line_model(jobs, now) + match first_in_progress(jobs) {
        Some(i) => steps_model(jobs[i].steps@, now),
        None => seq![(no_current_job_notice(), Tone::Plain)],
    }
}

/// Builds one progress frame.
pub fn progress_frame(jobs: &Vec<Job>, now: Timestamp) -> (r: Vec<Segment>)
    ensures
        segments_model(r@) == frame_model(jobs@, now),
{
    let mut frame = jobs_line_segments(jobs, now);
    let ghost head = segments_model(frame@);
    match select_current_job(jobs) {
        Some(i) => {
            let mut tail = steps_block_segments(&jobs[i].steps, now);
            let ghost t = segments_model(tail@);
            frame.append(&mut tail);
            assert(segments_model(frame@) =~= head + t);
        },
        None => {
            frame.push(Segment { text: String::from_str("\nNo current job found"), tone: Tone::Plain });
            assert(segments_model(frame@) =~= head + seq![(no_current_job_notice(), Tone::Plain)]);
        },
    }
    frame
}

/// Advances the watch by one event. A finished watch stays finished; a fetch
/// failure ends it; an empty job list ends it as `NoJobsFound`, never as
/// completed; a non-empty list of completed jobs ends it as `Completed`;
/// otherwise a frame is shown and the next round starts.
pub fn advance(state: DriverState, event: PollEvent, now: Timestamp) -> (r: (DriverState, PollAction))
    ensures
        state is Done ==> r == (state, PollAction::Finish { outcome: state->outcome }),
        !(state is Done) && event is FetchFailed ==> r == (
            DriverState::Done { outcome: Outcome::FetchFailed },
            PollAction::Finish { outcome: Outcome::FetchFailed },
        ),
        state is AwaitingRun && event is RunFetched ==> match event->run {
            None => r == (
                DriverState::Done { outcome: Outcome::NoRunsFound },
                PollAction::Finish { outcome: Outcome::NoRunsFound },
            ),
            Some(run) => r == (
                DriverState::AwaitingJobs { run_id: run.id },
                PollAction::FetchJobs { run_id: run.id },
            ),
        },
        state is AwaitingRun && event is JobsFetched ==> r == (
            DriverState::AwaitingRun,
            PollAction::FetchLatestRun,
        ),
        state is AwaitingJobs && event is RunFetched ==> r == (
            state,
            PollAction::FetchJobs { run_id: state->run_id },
        ),
        state is AwaitingJobs && event is JobsFetched && event->jobs@.len() == 0 ==> r == (
            DriverState::Done { outcome: Outcome::NoJobsFound },
            PollAction::Finish { outcome: Outcome::NoJobsFound },
        ),
        state is AwaitingJobs && event is JobsFetched && event->jobs@.len() > 0 && all_completed(
            event->jobs@,
        ) ==> r == (
            DriverState::Done { outcome: Outcome::Completed },
            PollAction::Finish { outcome: Outcome::Completed },
        ),
        state is AwaitingJobs && event is JobsFetched && !all_completed(event->jobs@) ==> {
            &&& r.0 == DriverState::AwaitingRun
            &&& r.1 is EmitAndWait
            &&& segments_model(r.1->frame@) == frame_model(event->jobs@, now)
        },
{
    match state {
        DriverState::Done { outcome } => (state, PollAction::Finish { outcome }),
        DriverState::AwaitingRun => match event {
            PollEvent::FetchFailed => (
                DriverState::Done { outcome: Outcome::FetchFailed },
                PollAction::Finish { outcome: Outcome::FetchFailed },
            ),
            PollEvent::RunFetched { run } => match run {
                None => (
                    DriverState::Done { outcome: Outcome::NoRunsFound },
                    PollAction::Finish { outcome: Outcome::NoRunsFound },
                ),
                Some(run) => (
                    DriverState::AwaitingJobs { run_id: run.id },
                    PollAction::FetchJobs { run_id: run.id },
                ),
            },
            PollEvent::JobsFetched { .. } => (DriverState::AwaitingRun, PollAction::FetchLatestRun),
        },
        DriverState::AwaitingJobs { run_id } => match event {
            PollEvent::FetchFailed => (
                DriverState::Done { outcome: Outcome::FetchFailed },
                PollAction::Finish { outcome: Outcome::FetchFailed },
            ),
            PollEvent::RunFetched { .. } => (state, PollAction::FetchJobs { run_id }),
            PollEvent::JobsFetched { jobs } => {
                if jobs.len() == 0 {
                    (
                        DriverState::Done { outcome: Outcome::NoJobsFound },
                        PollAction::Finish { outcome: Outcome::NoJobsFound },
                    )
                } else if all_terminal(&jobs) {
                    (
                        DriverState::Done { outcome: Outcome::Completed },
                        PollAction::Finish { outcome: Outcome::Completed },
                    )
                } else {
                    (DriverState::AwaitingRun, PollAction::EmitAndWait { frame: progress_frame(&jobs, now) })
                }
            },
        },
    }
}

} // verus!
