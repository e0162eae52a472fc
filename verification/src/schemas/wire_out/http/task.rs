use vstd::prelude::*;

verus! {

/// A task as the service answers it to a client.
#[derive(Debug)]
pub struct Task {
    pub name: String,
    pub schedule: String,
    pub url: String,
    pub retry_policy: RetryPolicy,
    pub execution_timeout: i32,
}

/// The retry policy of an answered task.
#[derive(Debug)]
pub struct RetryPolicy {
    pub times: i32,
    pub interval: i32,
    pub jitter_limit: i32,
}

} // verus!
