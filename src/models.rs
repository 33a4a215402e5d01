use vstd::prelude::*;

verus! {

/// The minimal identity of a workflow run.
#[derive(Clone, Copy, Debug, PartialEq, Eq, Structural)]
pub struct Run {
    pub id: i64,
}

/// Lifecycle stage of a job or a step.
#[derive(Clone, Copy, Debug, PartialEq, Eq, Structural)]
pub enum Status {
    Queued,
    InProgress,
    Completed,
}

/// Terminal outcome of a completed job or step.
#[derive(Clone, Copy, Debug, PartialEq, Eq, Structural)]
pub enum Conclusion {
    Failed,
    TimedOut,
    Canceled,
    Neutral,
    Success,
}

/// The naming and state fields shared by jobs and steps.
pub struct Identity {
    pub name: String,
    pub status: Status,
    pub conclusion: Option<Conclusion>,
}

/// Start and (optional) completion time, as RFC 3339 text.
pub struct TimeStat {
    pub started_at: String,
    pub completed_at: Option<String>,
}

/// One unit of work within a run.
pub struct Job {
    pub identity: Identity,
    pub time_stat: TimeStat,
    pub steps: Vec<Step>,
}

/// The jobs of one run, in the order the server gave them.
pub struct JobsList {
    pub jobs: Vec<Job>,
}

/// The smallest tracked unit of execution within a job.
pub struct Step {
    pub identity: Identity,
    pub time_stat: TimeStat,
}

/// A point in time: whole seconds since the Unix epoch and the nanoseconds
/// past that second (a leap second shows as nanoseconds of a billion or more).
#[derive(Clone, Copy, Debug, PartialEq, Eq, Structural)]
pub struct Timestamp {
    pub secs: i64,
    pub nanos: u32,
}

impl Timestamp {
    /// The instant as a count of nanoseconds since the epoch.
    pub open spec fn total_nanos(self) -> int {
        self.secs as int * 1_000_000_000 + self.nanos as int
    }
}

} // verus!
