use vstd::prelude::*;
use vstd::string::StringExecFns;
use crate::adapters::wire_in::task_execution::{bulk_cache_to_model, reply_decodable, reply_read};
use crate::schemas::models::task_execution::TaskExecutionData;
use crate::schemas::wire_in::redis::RedisValue;
use crate::schemas::wire_out;

verus! {

/// Key under which the serialised task named `name` is cached: `task_` and the name.
pub fn task_cache_key(name: &str) -> (r: String)
    ensures
        r@ == "task_"@ + name@,
{
    let mut key = String::from_str("task_");
    key.append(name);
    key
}

/// Reads the outcome of the task-taking script: its bulk reply into the
/// task executions it holds; a failed call into `Redis error: ` and the
/// error's text; any other reply into an error about its format.
pub fn tasks_from_script_reply<F: Fn(String) -> Option<wire_out::redis::task::Task>>(
    response: Result<RedisValue, String>,
    decode: &F,
) -> (r: Result<Vec<TaskExecutionData>, String>)
    requires
        forall|p: String| #[trigger] decode.requires((p,)),
        response matches Ok(RedisValue::Bulk(items)) ==> reply_decodable(items@, *decode),
    ensures
        response matches Ok(RedisValue::Bulk(items)) ==> (r matches Ok(tasks)
            && reply_read(items@, *decode, tasks@)),
        response matches Err(e) ==> (r matches Err(m) && m@ == "Redis error: "@ + e@),
        response matches Ok(v) && !(v is Bulk) ==> (r matches Err(m) && m@
            == "Unexpected response format from Lua script"@),
{
    match response {
        Ok(RedisValue::Bulk(items)) => {
            let tasks = bulk_cache_to_model(items, decode);
            Ok(tasks)
        },
        Err(e) => {
            let mut message = String::from_str("Redis error: ");
            message.append(e.as_str());
            Err(message)
        },
        _ => Err(String::from_str("Unexpected response format from Lua script")),
    }
}

} // verus!
