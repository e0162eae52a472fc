use vstd::prelude::*;
use vstd::string::StringExecFns;
use crate::cron_schedule::{
    cron_accepts, cron_next_after, cron_parse_error_text, first_firing_after,
    LAST_REPRESENTABLE_SECOND,
};
use crate::logic::task::{
    is_minimum_recurrence_time_valid, policy_worst_case, retry_policy_computable,
    worst_case_retry,
};
use crate::schemas::models;
use crate::text::{decimal, i32_to_string};

verus! {

/// A result whose error is taken by its text.
pub open spec fn result_text<T>(r: Result<T, String>) -> Result<T, Seq<char>> {
    match r {
        Ok(v) => Ok(v),
        Err(e) => Err(e@),
    }
}

/// Refusal of a task whose retries can outlast the time between its runs.
pub open spec fn retry_refusal_text(worst_case: int, timeout: int) -> Seq<char> {
    "The worst case of the retry policy ("@ + decimal(worst_case)
        + ") is bigger than the recurrence time "@ + decimal(timeout)
}

/// Refusal of a task whose schedule never fires again.
pub open spec fn no_next_execution_text() -> Seq<char> {
    "There is no next execution for the task"@
}

/// What registering `task` at Unix time `now` decides before anything is
/// stored: a refusal when the worst case of its retries is not below its
/// execution timeout, or when its schedule does not parse, or when the
/// schedule never fires after `now`; otherwise the Unix time of its first run.
pub open spec fn insertion_plan(task: models::task::Task, now: i64) -> Result<i64, Seq<char>> {
    let worst_case = policy_worst_case(task.retry_policy);
    if !(task.execution_timeout > worst_case) {
        Err(retry_refusal_text(worst_case, task.execution_timeout as int))
    } else if !cron_accepts(task.schedule@) {
        Err(cron_parse_error_text())
    } else {
        match cron_next_after(task.schedule@, now) {
            Some(next) => Ok(next),
            None => Err(no_next_execution_text()),
        }
    }
}

/// Registration looks for the first run of `task`: its retries end before
/// its execution timeout and its schedule parses.
pub open spec fn looks_for_first_run(task: models::task::Task) -> bool {
    &&& task.execution_timeout > policy_worst_case(task.retry_policy)
    &&& cron_accepts(task.schedule@)
}

/// Checks a task to register at Unix time `now` and finds its first run.
/// The search for the first run cannot start at chrono's last second.
pub fn plan_insert(task: &models::task::Task, now: i64) -> (r: Result<i64, String>)
    requires
        retry_policy_computable(task.retry_policy),
        now != LAST_REPRESENTABLE_SECOND || !looks_for_first_run(*task),
    ensures
        result_text(r) == insertion_plan(*task, now),
        r matches Ok(next) ==> next > now,
        task.execution_timeout > policy_worst_case(task.retry_policy) && cron_accepts(
            task.schedule@,
        ) && cron_next_after(task.schedule@, now) is Some ==> r == Ok::<i64, String>(
            cron_next_after(task.schedule@, now)->0,
        ),
        !(task.execution_timeout > policy_worst_case(task.retry_policy)) ==> (r matches Err(m)
            && m@ == retry_refusal_text(
            policy_worst_case(task.retry_policy),
            task.execution_timeout as int,
        )),
        task.execution_timeout > policy_worst_case(task.retry_policy) && !cron_accepts(
            task.schedule@,
        ) ==> (r matches Err(m) && m@ == cron_parse_error_text()),
        task.execution_timeout > policy_worst_case(task.retry_policy) && cron_accepts(
            task.schedule@,
        ) && cron_next_after(task.schedule@, now) is None ==> (r matches Err(m) && m@
            == no_next_execution_text()),
{
    let is_valid = is_minimum_recurrence_time_valid(task);
    if !is_valid {
        let retry_worst_case = worst_case_retry(&task.retry_policy).unwrap();
        let timeout = task.execution_timeout;
        let mut message = String::from_str("The worst case of the retry policy (");
        message.append(i32_to_string(retry_worst_case).as_str());
        message.append(") is bigger than the recurrence time ");
        message.append(i32_to_string(timeout).as_str());
        return Err(message);
    }
    let next_execution_time = match first_firing_after(task.schedule.as_str(), now) {
        Err(err) => return Err(err),
        Ok(next_execution_time) => next_execution_time,
    };
    match next_execution_time {
        None => Err(String::from_str("There is no next execution for the task")),
        Some(timestamp_next_execution_time) => Ok(timestamp_next_execution_time),
    }
}

/// `plan_insert` where it is defined; `None` where it is not (registering
/// a task that looks for its first run at chrono's last second).
pub fn try_plan_insert(task: &models::task::Task, now: i64) -> (r: Option<Result<i64, String>>)
    requires
        retry_policy_computable(task.retry_policy),
    ensures
        r is None <==> (now == LAST_REPRESENTABLE_SECOND && looks_for_first_run(*task)),
        r matches Some(plan) ==> result_text(plan) == insertion_plan(*task, now),
        task.execution_timeout > policy_worst_case(task.retry_policy) && cron_accepts(
            task.schedule@,
        ) && now != LAST_REPRESENTABLE_SECOND && cron_next_after(task.schedule@, now) is Some
            ==> r == Some(Ok::<i64, String>(cron_next_after(task.schedule@, now)->0)),
{
    if now == LAST_REPRESENTABLE_SECOND && is_minimum_recurrence_time_valid(task) {
        // whether the schedule parses does not depend on the time given
        if first_firing_after(task.schedule.as_str(), 0).is_ok() {
            return None;
        }
    }
    Some(plan_insert(task, now))
}

/// The answer to a registration once the task is in the database: the task
/// when the cache took it too, a refusal otherwise.
pub fn after_cache_write(task: models::task::Task, cached: bool) -> (r: Result<
    models::task::Task,
    String,
>)
    ensures
        cached ==> r == Ok::<models::task::Task, String>(task),
        !cached ==> (r matches Err(m) && m@ == "It wasn't possible to insert on cache"@),
{
    if cached {
        Ok(task)
    } else {
        Err(String::from_str("It wasn't possible to insert on cache"))
    }
}

/// A task whose execution timeout exceeds the worst case of its retries,
/// whose schedule parses and fires after `now`, is accepted with that firing
/// as its first run.
pub proof fn lemma_valid_task_accepted(task: models::task::Task, now: i64, first_run: i64)
    requires
        task.execution_timeout > policy_worst_case(task.retry_policy),
        cron_accepts(task.schedule@),
        cron_next_after(task.schedule@, now) == Some(first_run),
    ensures
        insertion_plan(task, now) == Ok::<i64, Seq<char>>(first_run),
{
}

/// A task whose execution timeout does not exceed the worst case of its
/// retries is refused, with the worst case and the timeout in the message.
pub proof fn lemma_long_retries_refused(task: models::task::Task, now: i64)
    requires
        !(task.execution_timeout > policy_worst_case(task.retry_policy)),
    ensures
        insertion_plan(task, now) == Err::<i64, Seq<char>>(
            retry_refusal_text(
                policy_worst_case(task.retry_policy),
                task.execution_timeout as int,
            ),
        ),
{
}

/// A task that registration accepts has an execution timeout beyond the
/// worst case of its retries, a schedule that parses, and a first run
/// later than the time of registration.
pub proof fn lemma_accepted_task(task: models::task::Task, now: i64, first_run: i64)
    requires
        insertion_plan(task, now) == Ok::<i64, Seq<char>>(first_run),
    ensures
        task.execution_timeout > policy_worst_case(task.retry_policy),
        cron_accepts(task.schedule@),
        cron_next_after(task.schedule@, now) == Some(first_run),
{
}

} // verus!
