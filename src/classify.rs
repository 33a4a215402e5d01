use vstd::prelude::*;
use crate::models::{Conclusion, Identity, Job, Status};

verus! {

/// How an identity is shown: one display style per category.
#[derive(Clone, Copy, Debug, PartialEq, Eq, Structural)]
pub enum Category {
    Pending,
    Active,
    Success,
    Neutral,
    Failure,
}

/// The display category of a status and an optional conclusion.
pub open spec fn category_of(status: Status, conclusion: Option<Conclusion>) -> Category {
    match status {
        Status::Queued => Category::Pending,
        Status::InProgress => Category::Active,
        Status::Completed => match conclusion {
            None => Category::Neutral,
            Some(Conclusion::Success) => Category::Success,
            Some(Conclusion::Neutral) => Category::Neutral,
            Some(_) => Category::Failure,
        },
    }
}

/// Classifies an identity for display.
pub fn classify_display_category(identity: &Identity) -> (r: Category)
    ensures
        r == category_of(identity.status, identity.conclusion),
{
    match identity.status {
        Status::Queued => Category::Pending,
        Status::InProgress => Category::Active,
        Status::Completed => match identity.conclusion {
            None => Category::Neutral,
            Some(Conclusion::Success) => Category::Success,
            Some(Conclusion::Neutral) => Category::Neutral,
            Some(_) => Category::Failure,
        },
    }
}

/// Whether a job is running.
pub open spec fn is_in_progress(job: Job) -> bool {
    job.identity.status == Status::InProgress
}

/// The index of the first running job, if any.
pub open spec fn first_in_progress(jobs: Seq<Job>) -> Option<int>
    decreases jobs.len(),
{
    if jobs.len() == 0 {
        None
    } else if is_in_progress(jobs[0]) {
        Some(0)
    } else {
        match first_in_progress(jobs.drop_first()) {
            Some(i) => Some(i + 1),
            None => None,
        }
    }
}

/// Selects the current job: the first one, in list order, that is running.
pub fn select_current_job(jobs: &Vec<Job>) -> (r: Option<usize>)
    ensures
        match r {
            Some(i) => first_in_progress(jobs@) == Some(i as int),
            None => first_in_progress(jobs@) is None,
        },
        match r {
            Some(i) => i < jobs@.len() && is_in_progress(jobs@[i as int])
                && forall|k: int| 0 <= k < i ==> !is_in_progress(#[trigger] jobs@[k]),
            None => forall|k: int| 0 <= k < jobs@.len() ==> !is_in_progress(#[trigger] jobs@[k]),
        },
{
    let mut i: usize = 0;
    while i < jobs.len()
        invariant
            i <= jobs@.len(),
            forall|k: int| 0 <= k < i ==> !is_in_progress(#[trigger] jobs@[k]),
        decreases jobs@.len() - i,
    {
        if jobs[i].identity.status == Status::InProgress {
            proof {
                lemma_first_in_progress_is(jobs@, Some(i as int));
            }
            return Some(i);
        }
        i += 1;
    }
    proof {
        lemma_first_in_progress_is(jobs@, None);
    }
    None
}

/// `first_in_progress` is the index of the first running job, if any.
proof fn lemma_first_in_progress_is(jobs: Seq<Job>, r: Option<int>)
    requires
        match r {
            Some(i) => 0 <= i < jobs.len() && is_in_progress(jobs[i])
                && forall|k: int| 0 <= k < i ==> !is_in_progress(#[trigger] jobs[k]),
            None => forall|k: int| 0 <= k < jobs.len() ==> !is_in_progress(#[trigger] jobs[k]),
        },
    ensures
        first_in_progress(jobs) == r,
    decreases jobs.len(),
{
    if jobs.len() > 0 {
        if r != Some(0int) {
            assert(!is_in_progress(jobs[0]));
            let rest = jobs.drop_first();
            let r2 = match r {
                Some(i) => Some(i - 1),
                None => None,
            };
            assert forall|k: int| 0 <= k < rest.len() && (r2 is None || k < r2->0) implies !is_in_progress(
                #[trigger] rest[k],
            ) by {
                assert(rest[k] == jobs[k + 1]);
            }
            if let Some(i) = r {
                assert(rest[i - 1] == jobs[i]);
            }
            lemma_first_in_progress_is(rest, r2);
        }
    }
}

/// Whether every job is completed (true of an empty list).
pub open spec fn all_completed(jobs: Seq<Job>) -> bool {
    forall|k: int| 0 <= k < jobs.len() ==> (#[trigger] jobs[k]).identity.status == Status::Completed
}

/// True iff every job's status is `Completed`; vacuously true when empty.
pub fn all_terminal(jobs: &Vec<Job>) -> (r: bool)
    ensures
        r == all_completed(jobs@),
{
    let mut i: usize = 0;
    while i < jobs.len()
        invariant
            i <= jobs@.len(),
            forall|k: int| 0 <= k < i ==> (#[trigger] jobs@[k]).identity.status == Status::Completed,
        decreases jobs@.len() - i,
    {
        if jobs[i].identity.status != Status::Completed {
            return false;
        }
        i += 1;
    }
    true
}

/// Below `Completed`, the category depends on the status alone.
pub proof fn lemma_category_ignores_conclusion(
    status: Status,
    c1: Option<Conclusion>,
    c2: Option<Conclusion>,
)
    requires
        status != Status::Completed,
    ensures
        category_of(status, c1) == category_of(status, c2),
{
}

/// For completed identities the category is fixed by the conclusion, and a
/// missing conclusion reads as neutral.
pub proof fn lemma_completed_category_table(c: Option<Conclusion>)
    ensures
        category_of(Status::Completed, c) == match c {
            None => Category::Neutral,
            Some(Conclusion::Success) => Category::Success,
            Some(Conclusion::Neutral) => Category::Neutral,
            Some(Conclusion::Failed) => Category::Failure,
            Some(Conclusion::TimedOut) => Category::Failure,
            Some(Conclusion::Canceled) => Category::Failure,
        },
{
}

} // verus!

verus! {

/// Every job of an empty list counts as completed; the driver therefore
/// looks at emptiness before it looks at completion.
pub proof fn lemma_empty_list_all_completed(jobs: Seq<Job>)
    requires
        jobs.len() == 0,
    ensures
        all_completed(jobs),
{
}

} // verus!
