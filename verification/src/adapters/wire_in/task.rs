use vstd::prelude::*;
use crate::schemas::{models, wire_in};

verus! {

/// The model of a registered task: every field as the client gave it.
pub open spec fn to_model_spec(dto: wire_in::task::Task) -> models::task::Task {
    models::task::Task {
        execution_timeout: dto.execution_timeout,
        name: dto.name,
        url: dto.url,
        schedule: dto.schedule,
        retry_policy: models::task::RetryPolicy {
            interval: dto.retry_policy.interval,
            jitter_limit: dto.retry_policy.jitter_limit,
            times: dto.retry_policy.times,
        },
    }
}

/// Turns a registration request into the task model.
pub fn to_model(dto: &wire_in::task::Task) -> (r: models::task::Task)
    ensures
        r == to_model_spec(*dto),
        r.name == dto.name,
        r.schedule == dto.schedule,
        r.url == dto.url,
        r.execution_timeout == dto.execution_timeout,
        r.retry_policy.times == dto.retry_policy.times,
        r.retry_policy.interval == dto.retry_policy.interval,
        r.retry_policy.jitter_limit == dto.retry_policy.jitter_limit,
{
    models::task::Task {
        execution_timeout: dto.execution_timeout,
        name: dto.name.clone(),
        url: dto.url.clone(),
        schedule: dto.schedule.clone(),
        retry_policy: models::task::RetryPolicy {
            interval: dto.retry_policy.interval,
            jitter_limit: dto.retry_policy.jitter_limit,
            times: dto.retry_policy.times,
        },
    }
}

/// Every field of the task model is the same-named field of the request.
pub proof fn lemma_to_model_keeps_fields(dto: wire_in::task::Task)
    ensures
        ({
            let m = to_model_spec(dto);
            &&& m.name == dto.name
            &&& m.schedule == dto.schedule
            &&& m.url == dto.url
            &&& m.execution_timeout == dto.execution_timeout
            &&& m.retry_policy.times == dto.retry_policy.times
            &&& m.retry_policy.interval == dto.retry_policy.interval
            &&& m.retry_policy.jitter_limit == dto.retry_policy.jitter_limit
        }),
{
}

} // verus!
