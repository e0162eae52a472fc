use vstd::prelude::*;
use crate::schemas::models::task::Task;

verus! {

/// A task taken from the schedule: its member name in the sorted set,
/// the score (Unix time) it was scheduled for, and the task itself.
#[derive(Debug)]
pub struct TaskExecutionData {
    pub name: String,
    pub score: i64,
    pub task: Task,
}

impl Clone for TaskExecutionData {
    fn clone(&self) -> (r: Self)
        ensures
            r == *self,
    {
        TaskExecutionData { task: self.task.clone(), name: self.name.clone(), score: self.score }
    }
}

} // verus!
