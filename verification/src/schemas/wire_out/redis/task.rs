use vstd::prelude::*;

verus! {

/// A task as it is kept in the cache, under short field names:
/// `n` name, `s` schedule, `u` url, `rp` retry policy, `et` execution timeout.
#[derive(Debug)]
pub struct Task {
    pub n: String,
    pub s: String,
    pub u: String,
    pub rp: RetryPolicy,
    pub et: i32,
}

/// A cached retry policy: `t` times, `i` interval, `j` jitter limit.
#[derive(Debug)]
pub struct RetryPolicy {
    pub t: i32,
    pub i: i32,
    pub j: i32,
}

} // verus!
