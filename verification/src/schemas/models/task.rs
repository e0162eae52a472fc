use vstd::prelude::*;

verus! {

/// A recurring task: where to send the request, on which cron schedule,
/// and how failed deliveries are retried.
#[derive(Debug)]
pub struct Task {
    pub name: String,
    pub schedule: String,
    pub url: String,
    pub retry_policy: RetryPolicy,
    pub execution_timeout: i32,
}

/// Retries with exponential back-off: attempt `k` waits
/// `interval * 2^k` plus at most `jitter_limit`.
#[derive(Debug)]
pub struct RetryPolicy {
    pub times: i32,
    pub interval: i32,
    pub jitter_limit: i32,
}

impl Clone for RetryPolicy {
    fn clone(&self) -> (r: Self)
        ensures
            r == *self,
    {
        RetryPolicy { times: self.times, interval: self.interval, jitter_limit: self.jitter_limit }
    }
}

impl Clone for Task {
    fn clone(&self) -> (r: Self)
        ensures
            r == *self,
    {
        Task {
            name: self.name.clone(),
            schedule: self.schedule.clone(),
            url: self.url.clone(),
            retry_policy: self.retry_policy.clone(),
            execution_timeout: self.execution_timeout,
        }
    }
}

} // verus!
