pub mod wire_in;
pub mod wire_out;

use vstd::prelude::*;
use crate::adapters::wire_in::task::to_model_spec;
use crate::adapters::wire_in::task_execution::from_dto_spec;
use crate::adapters::wire_out::http::task::to_wire_spec;
use crate::adapters::wire_out::redis::task::to_dto_spec;
use crate::schemas;
use crate::schemas::models;

verus! {

/// A task read back from the cache is the task that was written to it.
pub proof fn lemma_cache_round_trip(task: models::task::Task)
    ensures
        from_dto_spec(to_dto_spec(task)) == task,
{
}

/// A cached task written again is the same cache entry.
pub proof fn lemma_cache_entry_round_trip(cached: schemas::wire_out::redis::task::Task)
    ensures
        to_dto_spec(from_dto_spec(cached)) == cached,
{
}

/// The answer to a registration repeats the registered task field for field.
pub proof fn lemma_registration_echo(dto: schemas::wire_in::task::Task)
    ensures
        ({
            let answer = to_wire_spec(to_model_spec(dto));
            &&& answer.name == dto.name
            &&& answer.schedule == dto.schedule
            &&& answer.url == dto.url
            &&& answer.execution_timeout == dto.execution_timeout
            &&& answer.retry_policy.times == dto.retry_policy.times
            &&& answer.retry_policy.interval == dto.retry_policy.interval
            &&& answer.retry_policy.jitter_limit == dto.retry_policy.jitter_limit
        }),
{
}

} // verus!
