use vstd::prelude::*;
use crate::schemas::{models, wire_out};

verus! {

/// The answer to a client for a task: every field of the model.
pub open spec fn to_wire_spec(model: models::task::Task) -> wire_out::http::task::Task {
    wire_out::http::task::Task {
        execution_timeout: model.execution_timeout,
        name: model.name,
        url: model.url,
        schedule: model.schedule,
        retry_policy: wire_out::http::task::RetryPolicy {
            interval: model.retry_policy.interval,
            jitter_limit: model.retry_policy.jitter_limit,
            times: model.retry_policy.times,
        },
    }
}

/// Turns a task model into the answer sent to a client.
pub fn to_wire(model: &models::task::Task) -> (r: wire_out::http::task::Task)
    ensures
        r == to_wire_spec(*model),
        r.name == model.name,
        r.schedule == model.schedule,
        r.url == model.url,
        r.execution_timeout == model.execution_timeout,
        r.retry_policy.times == model.retry_policy.times,
        r.retry_policy.interval == model.retry_policy.interval,
        r.retry_policy.jitter_limit == model.retry_policy.jitter_limit,
{
    wire_out::http::task::Task {
        execution_timeout: model.execution_timeout,
        name: model.name.clone(),
        url: model.url.clone(),
        schedule: model.schedule.clone(),
        retry_policy: wire_out::http::task::RetryPolicy {
            interval: model.retry_policy.interval,
            jitter_limit: model.retry_policy.jitter_limit,
            times: model.retry_policy.times,
        },
    }
}

/// Every field of the answer is the same-named field of the task model.
pub proof fn lemma_to_wire_keeps_fields(model: models::task::Task)
    ensures
        ({
            let w = to_wire_spec(model);
            &&& w.name == model.name
            &&& w.schedule == model.schedule
            &&& w.url == model.url
            &&& w.execution_timeout == model.execution_timeout
            &&& w.retry_policy.times == model.retry_policy.times
            &&& w.retry_policy.interval == model.retry_policy.interval
            &&& w.retry_policy.jitter_limit == model.retry_policy.jitter_limit
        }),
{
}

} // verus!
