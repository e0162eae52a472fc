use vstd::prelude::*;
use vstd::string::StringExecFns;
use crate::cron_schedule::cron_next_after;
use crate::logic::task::{
    has_new_score, retry_policy_computable, retry_policy_is_computable, try_new_score,
};
use crate::schemas::models::task_execution::TaskExecutionData;

verus! {

/// The HTTP status code of a successful delivery.
pub const STATUS_OK: u16 = 200;

/// What the executor does once a task was posted to its URL.
#[derive(Debug)]
pub enum AfterDelivery {
    /// Store the task again in the schedule under this score.
    Reschedule(i64),
    /// Post the task again, as retry number this (counted from 0), after
    /// the wait `retry_wait` gives for it.
    Retry(i32),
    /// Give up on this run with this error.
    Failed(String),
    /// The schedule has no next run: the executor cannot go on.
    NoNextExecution,
}

/// The next score of a delivered task, where there is one.
pub open spec fn next_score(data: TaskExecutionData) -> Option<i64> {
    if has_new_score(data.score, data.task) {
        cron_next_after(data.task.schedule@, data.score)
    } else {
        None
    }
}

/// Whether a failed delivery, after `retries_done` retries, is retried:
/// its policy has retries left, and its waits can be computed.
pub open spec fn retries_left(data: TaskExecutionData, retries_done: i32) -> bool {
    &&& retries_done < data.task.retry_policy.times
    &&& retry_policy_computable(data.task.retry_policy)
}

/// Decides on the outcome of posting a task, after `retries_done` retries
/// of this run: `status` is the HTTP status of the answer, `None` when the
/// request failed. A 200 answer gets the task rescheduled, at the first
/// firing of its schedule after the score it was due at. Any other outcome
/// is retried while the retry policy has retries left, and fails after.
pub fn after_delivery(execution_data: &TaskExecutionData, status: Option<u16>, retries_done: i32) -> (r:
    AfterDelivery)
    requires
        0 <= retries_done,
    ensures
        status == Some(STATUS_OK) ==> match next_score(*execution_data) {
            Some(score) => r == AfterDelivery::Reschedule(score),
            None => r == AfterDelivery::NoNextExecution,
        },
        status != Some(STATUS_OK) && retries_left(*execution_data, retries_done) ==> r
            == AfterDelivery::Retry(retries_done),
        status is None && !retries_left(*execution_data, retries_done) ==> (
        r matches AfterDelivery::Failed(m) && m@ == "err"@),
        status matches Some(code) && code != STATUS_OK && !retries_left(
            *execution_data,
            retries_done,
        ) ==> (r matches AfterDelivery::Failed(m) && m@ == ""@),
        r matches AfterDelivery::Reschedule(score) ==> score > execution_data.score,
{
    if status == Some(STATUS_OK) {
        return match try_new_score(execution_data.score, &execution_data.task) {
            Some(new_score) => AfterDelivery::Reschedule(new_score),
            None => AfterDelivery::NoNextExecution,
        };
    }
    if retries_done < execution_data.task.retry_policy.times && retry_policy_is_computable(
        &execution_data.task.retry_policy,
    ) {
        return AfterDelivery::Retry(retries_done);
    }
    match status {
        Some(_) => AfterDelivery::Failed(String::from_str("")),
        None => AfterDelivery::Failed(String::from_str("err")),
    }
}

/// The result of one run once the schedule was (or was not) updated.
pub fn after_reschedule(execution_data: TaskExecutionData, stored: bool) -> (r: Result<
    TaskExecutionData,
    String,
>)
    ensures
        stored ==> r == Ok::<TaskExecutionData, String>(execution_data),
        !stored ==> (r matches Err(m) && m@ == "err"@),
{
    if stored {
        Ok(execution_data)
    } else {
        Err(String::from_str("err"))
    }
}

/// The successful runs of a round, in order.
pub open spec fn successes(results: Seq<Result<TaskExecutionData, String>>) -> Seq<
    TaskExecutionData,
>
    decreases results.len(),
{
    if results.len() == 0 {
        seq![]
    } else {
        let rest = successes(results.drop_last());
        match results.last() {
            Ok(d) => rest.push(d),
            Err(_) => rest,
        }
    }
}

/// The errors of a round, in order.
pub open spec fn failures(results: Seq<Result<TaskExecutionData, String>>) -> Seq<String>
    decreases results.len(),
{
    if results.len() == 0 {
        seq![]
    } else {
        let rest = failures(results.drop_last());
        match results.last() {
            Ok(_) => rest,
            Err(e) => rest.push(e),
        }
    }
}

/// Splits the results of a round of runs into the runs that succeeded and
/// the errors of the others, each in the order given.
pub fn split_outcomes(results: Vec<Result<TaskExecutionData, String>>) -> (r: (
    Vec<TaskExecutionData>,
    Vec<String>,
))
    ensures
        r.0@ == successes(results@),
        r.1@ == failures(results@),
{
    let mut successes_found: Vec<TaskExecutionData> = Vec::new();
    let mut failures_found: Vec<String> = Vec::new();
    let mut i: usize = 0;
    while i < results.len()
        invariant
            0 <= i <= results.len(),
            successes_found@ == successes(results@.subrange(0, i as int)),
            failures_found@ == failures(results@.subrange(0, i as int)),
        decreases results.len() - i,
    {
        proof {
            assert(results@.subrange(0, i + 1).drop_last() =~= results@.subrange(0, i as int));
        }
        match &results[i] {
            Ok(data) => successes_found.push(data.clone()),
            Err(e) => failures_found.push(e.clone()),
        }
        i = i + 1;
    }
    proof {
        assert(results@.subrange(0, i as int) =~= results@);
    }
    (successes_found, failures_found)
}

/// Every result of a round is either a success or an error.
pub proof fn lemma_round_is_split(results: Seq<Result<TaskExecutionData, String>>)
    ensures
        successes(results).len() + failures(results).len() == results.len(),
    decreases results.len(),
{
    if results.len() > 0 {
        lemma_round_is_split(results.drop_last());
    }
}

} // verus!
