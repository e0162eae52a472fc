use vstd::prelude::*;
use crate::cron_schedule::{
    cron_accepts, cron_next_after, first_firing_after, LAST_REPRESENTABLE_SECOND,
};
use crate::randomness::random_u64;
use crate::schemas::models::task::{RetryPolicy, Task};

verus! {

/// `2^k`: the back-off multiplier of attempt `k` (attempts count from 0).
pub open spec fn backoff_factor(k: nat) -> int
    decreases k,
{
    if k == 0 {
        1
    } else {
        2 * backoff_factor((k - 1) as nat)
    }
}

/// Longest wait before attempt `k`: `interval * 2^k` plus the whole jitter.
pub open spec fn attempt_worst_case(interval: int, jitter_limit: int, k: nat) -> int {
    interval * backoff_factor(k) + jitter_limit
}

/// Sum of the worst-case waits of the first `n` attempts.
pub open spec fn worst_case_total(interval: int, jitter_limit: int, n: nat) -> int
    decreases n,
{
    if n == 0 {
        0
    } else {
        worst_case_total(interval, jitter_limit, (n - 1) as nat) + attempt_worst_case(
            interval,
            jitter_limit,
            (n - 1) as nat,
        )
    }
}

/// The worst case of a whole retry policy: every one of its `times` attempts
/// waits as long as it can.
pub open spec fn policy_worst_case(p: RetryPolicy) -> int {
    worst_case_total(p.interval as int, p.jitter_limit as int, p.times as nat)
}

pub open spec fn fits_i32(x: int) -> bool {
    i32::MIN <= x <= i32::MAX
}

/// Attempt `k` of the policy is computed in `i32` arithmetic without overflow:
/// its back-off product, its worst case, and the running sum through it.
pub open spec fn attempt_fits(p: RetryPolicy, k: nat) -> bool {
    &&& backoff_factor(k) <= i32::MAX
    &&& fits_i32(p.interval * backoff_factor(k))
    &&& fits_i32(attempt_worst_case(p.interval as int, p.jitter_limit as int, k))
    &&& fits_i32(worst_case_total(p.interval as int, p.jitter_limit as int, k + 1))
}

/// The policy's worst case is computed without an arithmetic overflow.
/// Outside of this (at least one attempt, at most 31, every step in `i32`)
/// the computation overflows and the program stops.
pub open spec fn retry_policy_computable(p: RetryPolicy) -> bool {
    &&& 1 <= p.times <= 31
    &&& forall|k: nat| k < p.times ==> #[trigger] attempt_fits(p, k)
}

proof fn lemma_backoff_factor_grows(k: nat)
    ensures
        1 <= backoff_factor(k),
        backoff_factor(k) < backoff_factor(k + 1),
    decreases k,
{
    if k > 0 {
        lemma_backoff_factor_grows((k - 1) as nat);
    }
}

/// `2^k` fits in an `i32` for every `k <= 30`.
proof fn lemma_backoff_factor_small(k: nat)
    requires
        k <= 30,
    ensures
        1 <= backoff_factor(k) <= 0x4000_0000,
    decreases 30 - k,
{
    lemma_backoff_factor_grows(k);
    if k < 30 {
        lemma_backoff_factor_small(k + 1);
    } else {
        reveal_with_fuel(backoff_factor, 31);
        assert(backoff_factor(30) == 0x4000_0000);
    }
}

/// Closed form of the worst case:
/// `sum_{k < n} (interval * 2^k + jitter) == interval * (2^n - 1) + n * jitter`.
pub proof fn lemma_worst_case_closed_form(interval: int, jitter_limit: int, n: nat)
    ensures
        worst_case_total(interval, jitter_limit, n) == interval * (backoff_factor(n) - 1) + n
            * jitter_limit,
    decreases n,
{
    if n > 0 {
        let m = (n - 1) as nat;
        lemma_worst_case_closed_form(interval, jitter_limit, m);
        let b = backoff_factor(m);
        let bn = backoff_factor(n);
        assert(bn == 2 * b);
        assert(worst_case_total(interval, jitter_limit, n) == worst_case_total(
            interval,
            jitter_limit,
            m,
        ) + (interval * b + jitter_limit));
        assert(interval * (b - 1) + m * jitter_limit + (interval * b + jitter_limit) == interval
            * (bn - 1) + n * jitter_limit) by (nonlinear_arith)
            requires
                n == m + 1,
                bn == 2 * b,
        ;
    } else {
        assert(interval * (backoff_factor(n) - 1) == 0) by (nonlinear_arith)
            requires
                backoff_factor(n) == 1,
        ;
    }
}

/// Worst-case time spent on retries: the sum, over the policy's attempts
/// `k = 0 .. times - 1`, of `interval * 2^k + jitter_limit`.
pub fn worst_case_retry(retry_policy: &RetryPolicy) -> (r: Option<i32>)
    requires
        retry_policy_computable(*retry_policy),
    ensures
        r is Some,
        r->0 == policy_worst_case(*retry_policy),
{
    let exponential_backoff: i32 = 2;
    let interval = retry_policy.interval;
    let jitter_limit = retry_policy.jitter_limit;
    let times = retry_policy.times;
    let ghost p = *retry_policy;
    let mut factor: i32 = 1;
    assert(attempt_fits(p, 0));
    assert(worst_case_total(interval as int, jitter_limit as int, 1) == interval * 1
        + jitter_limit) by {
        reveal_with_fuel(worst_case_total, 2);
    }
    let mut acc: i32 = interval * factor + jitter_limit;
    let mut k: i32 = 1;
    while k < times
        invariant
            p == *retry_policy,
            exponential_backoff == 2,
            retry_policy_computable(p),
            interval == p.interval,
            jitter_limit == p.jitter_limit,
            times == p.times,
            1 <= k <= times,
            factor == backoff_factor((k - 1) as nat),
            acc == worst_case_total(interval as int, jitter_limit as int, k as nat),
        decreases times - k,
    {
        assert(attempt_fits(p, k as nat));
        proof {
            lemma_backoff_factor_small(k as nat);
        }
        assert(backoff_factor(k as nat) == 2 * factor);
        factor = factor * exponential_backoff;
        let term = interval * factor + jitter_limit;
        acc = acc + term;
        k = k + 1;
    }
    Some(acc)
}

/// Whether `worst_case_retry` can be computed for `retry_policy`: the
/// policy has between 1 and 31 attempts and no step of the sum leaves `i32`.
pub fn retry_policy_is_computable(retry_policy: &RetryPolicy) -> (r: bool)
    ensures
        r == retry_policy_computable(*retry_policy),
{
    let ghost p = *retry_policy;
    let times = retry_policy.times;
    if times < 1 || times > 31 {
        return false;
    }
    let interval = retry_policy.interval as i64;
    let jitter_limit = retry_policy.jitter_limit as i64;
    let mut factor: i64 = 1;
    let mut acc: i64 = 0;
    let mut k: i32 = 0;
    while k < times
        invariant
            p == *retry_policy,
            1 <= times <= 31,
            times == p.times,
            interval == p.interval,
            jitter_limit == p.jitter_limit,
            0 <= k <= times,
            k < times ==> factor == backoff_factor(k as nat),
            acc == worst_case_total(interval as int, jitter_limit as int, k as nat),
            fits_i32(acc as int),
            forall|j: nat| j < k ==> #[trigger] attempt_fits(p, j),
        decreases times - k,
    {
        proof {
            lemma_backoff_factor_small(k as nat);
        }
        assert(-0x8000_0000 * 0x4000_0000 <= interval * factor <= 0x7fff_ffff * 0x4000_0000)
            by (nonlinear_arith)
            requires
                -0x8000_0000 <= interval <= 0x7fff_ffff,
                1 <= factor <= 0x4000_0000,
        ;
        let product = interval * factor;
        let term = product + jitter_limit;
        let next = acc + term;
        if product < -0x8000_0000 || product > 0x7fff_ffff || term < -0x8000_0000 || term
            > 0x7fff_ffff || next < -0x8000_0000 || next > 0x7fff_ffff {
            assert(!attempt_fits(p, k as nat));
            return false;
        }
        assert(attempt_fits(p, k as nat));
        acc = next;
        if k < 30 {
            assert(backoff_factor((k + 1) as nat) == 2 * factor);
            factor = factor * 2;
        }
        k = k + 1;
    }
    true
}

/// Largest jitter added to a retry's wait: the jitter limit, or nothing
/// when the limit is negative.
pub open spec fn jitter_cap(p: RetryPolicy) -> int {
    if p.jitter_limit < 0 {
        0
    } else {
        p.jitter_limit as int
    }
}

/// Wait (in milliseconds) before retry `attempt` (counted from 0) of a
/// failed delivery: `interval * 2^attempt` plus the jitter drawn for it.
pub fn retry_wait(retry_policy: &RetryPolicy, attempt: i32, jitter: i32) -> (r: i32)
    requires
        retry_policy_computable(*retry_policy),
        0 <= attempt < retry_policy.times,
        0 <= jitter <= jitter_cap(*retry_policy),
    ensures
        r == retry_policy.interval * backoff_factor(attempt as nat) + jitter,
        retry_policy.jitter_limit >= 0 ==> r <= attempt_worst_case(
            retry_policy.interval as int,
            retry_policy.jitter_limit as int,
            attempt as nat,
        ),
{
    let ghost p = *retry_policy;
    assert(attempt_fits(p, attempt as nat));
    let mut factor: i32 = 1;
    let mut k: i32 = 0;
    while k < attempt
        invariant
            0 <= k <= attempt <= 30,
            factor == backoff_factor(k as nat),
        decreases attempt - k,
    {
        proof {
            lemma_backoff_factor_small((k + 1) as nat);
        }
        assert(backoff_factor((k + 1) as nat) == 2 * factor);
        factor = factor * 2;
        k = k + 1;
    }
    retry_policy.interval * factor + jitter
}

/// The jitter that the random draw `draw` gives for a retry under `p`.
pub open spec fn jitter_of_draw(p: RetryPolicy, draw: u64) -> int {
    if p.jitter_limit <= 0 {
        0
    } else {
        (draw % ((p.jitter_limit + 1) as u64)) as int
    }
}

/// The jitter that a random draw gives for a retry: nothing when the
/// jitter limit is not positive, otherwise the draw reduced to
/// `0 ..= jitter_limit`.
pub fn jitter_from_draw(retry_policy: &RetryPolicy, draw: u64) -> (r: i32)
    ensures
        r == (if retry_policy.jitter_limit <= 0 {
            0
        } else {
            (draw % ((retry_policy.jitter_limit + 1) as u64)) as int
        }),
        r == jitter_of_draw(*retry_policy, draw),
        0 <= r <= jitter_cap(*retry_policy),
{
    if retry_policy.jitter_limit <= 0 {
        return 0;
    }
    let span = retry_policy.jitter_limit as u64 + 1;
    (draw % span) as i32
}

/// Every jitter from 0 to a positive jitter limit is the jitter of some
/// draw: a draw at most the limit is kept as it is.
pub proof fn lemma_every_jitter_drawable(p: RetryPolicy, value: int)
    requires
        p.jitter_limit > 0,
        0 <= value <= p.jitter_limit,
    ensures
        jitter_of_draw(p, value as u64) == value,
{
    vstd::arithmetic::div_mod::lemma_small_mod(value as nat, (p.jitter_limit + 1) as nat);
}

/// Draws the jitter of a retry: a random number from 0 to the policy's
/// jitter cap, made by `jitter_from_draw` from a random draw.
pub fn random_jitter(retry_policy: &RetryPolicy) -> (r: i32)
    ensures
        0 <= r <= jitter_cap(*retry_policy),
        retry_policy.jitter_limit <= 0 ==> r == 0,
        exists|draw: u64| r == jitter_of_draw(*retry_policy, draw),
{
    jitter_from_draw(retry_policy, random_u64())
}

/// Sum of the waits of the first `n` retries, retry `k` drawing `jitters[k]`.
pub open spec fn retry_waits_total(interval: int, jitters: Seq<int>, n: nat) -> int
    decreases n,
{
    if n == 0 {
        0
    } else {
        retry_waits_total(interval, jitters, (n - 1) as nat) + interval * backoff_factor(
            (n - 1) as nat,
        ) + jitters[n - 1]
    }
}

/// However the jitters fall (each between 0 and the jitter cap, as
/// `random_jitter` draws them), the retries of a delivery wait no longer in
/// all than the worst case with the jitter cap in place of the jitter
/// limit; with a jitter limit that is not negative, that is the policy's
/// worst case.
pub proof fn lemma_retries_within_worst_case(p: RetryPolicy, jitters: Seq<int>, n: nat)
    requires
        n <= jitters.len(),
        forall|k: int| 0 <= k < jitters.len() ==> 0 <= #[trigger] jitters[k] <= jitter_cap(p),
    ensures
        retry_waits_total(p.interval as int, jitters, n) <= worst_case_total(
            p.interval as int,
            jitter_cap(p),
            n,
        ),
        p.jitter_limit >= 0 ==> retry_waits_total(p.interval as int, jitters, n)
            <= worst_case_total(p.interval as int, p.jitter_limit as int, n),
    decreases n,
{
    if n > 0 {
        lemma_retries_within_worst_case(p, jitters, (n - 1) as nat);
        assert(jitters[n - 1] <= jitter_cap(p));
    }
}

/// Whether the worst case of the task's retry policy goes beyond 30 seconds.
pub fn exceed_recurrence_time_limit(task: &Task) -> (r: bool)
    requires
        retry_policy_computable(task.retry_policy),
    ensures
        r == (policy_worst_case(task.retry_policy) > 30_000),
{
    match worst_case_retry(&task.retry_policy) {
        Some(worst_case_retry_time) => worst_case_retry_time > 30_000,
        None => true,
    }
}

/// Whether the task's execution timeout is longer than the worst case of
/// its retry policy, so that the retries of one run end before the next run.
pub fn is_minimum_recurrence_time_valid(task: &Task) -> (r: bool)
    requires
        retry_policy_computable(task.retry_policy),
    ensures
        r == (task.execution_timeout > policy_worst_case(task.retry_policy)),
{
    let minimum_recurrence_time = worst_case_retry(&task.retry_policy);
    match minimum_recurrence_time {
        Some(min_rec_time) => task.execution_timeout > min_rec_time,
        None => false,
    }
}

/// The score a task gets after it ran: the Unix time of the firing of its
/// cron schedule that cron finds after `current_score`, the time it was due.
/// There is no score where no such firing exists (schedule that does not
/// parse, time out of range, no later firing): the executor stops there.
pub fn new_score(current_score: i64, task: Task) -> (r: i64)
    requires
        current_score != LAST_REPRESENTABLE_SECOND,
        cron_accepts(task.schedule@),
        cron_next_after(task.schedule@, current_score) is Some,
    ensures
        cron_next_after(task.schedule@, current_score) == Some(r),
        r > current_score,
{
    match first_firing_after(task.schedule.as_str(), current_score) {
        Ok(Some(next_execution_time)) => next_execution_time,
        _ => current_score,
    }
}

/// Whether a task due at `current_score` has a next score.
pub open spec fn has_new_score(current_score: i64, task: Task) -> bool {
    &&& current_score != LAST_REPRESENTABLE_SECOND
    &&& cron_accepts(task.schedule@)
    &&& cron_next_after(task.schedule@, current_score) is Some
}

/// `new_score` where it is defined; `None` where `new_score` has no result.
pub fn try_new_score(current_score: i64, task: &Task) -> (r: Option<i64>)
    ensures
        r is Some <==> has_new_score(current_score, *task),
        r matches Some(n) ==> Some(n) == cron_next_after(task.schedule@, current_score),
        r matches Some(n) ==> n > current_score,
{
    if current_score == LAST_REPRESENTABLE_SECOND {
        return None;
    }
    match first_firing_after(task.schedule.as_str(), current_score) {
        Ok(Some(_)) => Some(new_score(current_score, task.clone())),
        _ => None,
    }
}

} // verus!
