use vstd::prelude::*;
use crate::schemas::{models, wire_out};

verus! {

/// The cached form of a task.
pub open spec fn to_dto_spec(task: models::task::Task) -> wire_out::redis::task::Task {
    wire_out::redis::task::Task {
        et: task.execution_timeout,
        n: task.name,
        u: task.url,
        s: task.schedule,
        rp: wire_out::redis::task::RetryPolicy {
            i: task.retry_policy.interval,
            j: task.retry_policy.jitter_limit,
            t: task.retry_policy.times,
        },
    }
}

/// Turns a task model into the form kept in the cache.
pub fn to_dto(task: &models::task::Task) -> (r: wire_out::redis::task::Task)
    ensures
        r == to_dto_spec(*task),
        r.n == task.name,
        r.s == task.schedule,
        r.u == task.url,
        r.et == task.execution_timeout,
        r.rp.t == task.retry_policy.times,
        r.rp.i == task.retry_policy.interval,
        r.rp.j == task.retry_policy.jitter_limit,
{
    wire_out::redis::task::Task {
        et: task.execution_timeout,
        n: task.name.clone(),
        u: task.url.clone(),
        s: task.schedule.clone(),
        rp: wire_out::redis::task::RetryPolicy {
            i: task.retry_policy.interval,
            j: task.retry_policy.jitter_limit,
            t: task.retry_policy.times,
        },
    }
}

/// The cached form holds the task's fields under their short names:
/// `n` name, `s` schedule, `u` url, `et` execution timeout, and in `rp`,
/// `t` times, `i` interval, `j` jitter limit.
pub proof fn lemma_to_dto_short_names(task: models::task::Task)
    ensures
        ({
            let c = to_dto_spec(task);
            &&& c.n == task.name
            &&& c.s == task.schedule
            &&& c.u == task.url
            &&& c.et == task.execution_timeout
            &&& c.rp.t == task.retry_policy.times
            &&& c.rp.i == task.retry_policy.interval
            &&& c.rp.j == task.retry_policy.jitter_limit
        }),
{
}

} // verus!
