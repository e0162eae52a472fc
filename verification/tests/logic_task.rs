use schedulinator::logic::task::{
    exceed_recurrence_time_limit, is_minimum_recurrence_time_valid, jitter_from_draw, new_score,
    random_jitter,
    retry_policy_is_computable, retry_wait, try_new_score, worst_case_retry,
};
use schedulinator::schemas::models::task::{RetryPolicy, Task};

fn policy(times: i32, interval: i32, jitter_limit: i32) -> RetryPolicy {
    RetryPolicy { times, interval, jitter_limit }
}

fn task_with(schedule: &str, policy: RetryPolicy, execution_timeout: i32) -> Task {
    Task {
        name: "report".to_string(),
        schedule: schedule.to_string(),
        url: "http://localhost/report".to_string(),
        retry_policy: policy,
        execution_timeout,
    }
}

#[test]
fn worst_case_of_readme_policy_is_2900() {
    // 200*2^0+500 + 200*2^1+500 + 200*2^2+500 = 700 + 900 + 1300
    let p = policy(3, 200, 500);
    assert!(retry_policy_is_computable(&p));
    assert_eq!(worst_case_retry(&p), Some(2900));
}

#[test]
fn worst_case_of_single_attempt() {
    let p = policy(1, 1000, 10);
    assert_eq!(worst_case_retry(&p), Some(1010));
}

#[test]
fn worst_case_matches_closed_form() {
    // interval * (2^n - 1) + n * jitter
    let p = policy(10, 3, 7);
    assert_eq!(worst_case_retry(&p), Some(3 * (1024 - 1) + 10 * 7));
}

#[test]
fn worst_case_with_negative_values() {
    let p = policy(2, -5, 1);
    assert_eq!(worst_case_retry(&p), Some(-5 + 1 + -10 + 1));
}

#[test]
fn policies_outside_i32_are_not_computable() {
    assert!(!retry_policy_is_computable(&policy(0, 200, 500)));
    assert!(!retry_policy_is_computable(&policy(-3, 200, 500)));
    assert!(!retry_policy_is_computable(&policy(32, 0, 0)));
    assert!(retry_policy_is_computable(&policy(31, 0, 0)));
    assert!(retry_policy_is_computable(&policy(31, 1, 0)));
    assert!(!retry_policy_is_computable(&policy(31, 2, 0)));
    assert!(!retry_policy_is_computable(&policy(2, i32::MAX, 0)));
    assert!(!retry_policy_is_computable(&policy(1, i32::MAX, 1)));
    assert!(!retry_policy_is_computable(&policy(2, 0, i32::MAX)));
    assert!(retry_policy_is_computable(&policy(1, 0, i32::MAX)));
}

#[test]
fn recurrence_limit_is_thirty_seconds() {
    let short = task_with("0 * * * * *", policy(3, 200, 500), 60_000);
    assert!(!exceed_recurrence_time_limit(&short));
    let exactly = task_with("0 * * * * *", policy(1, 20_000, 10_000), 60_000);
    assert!(!exceed_recurrence_time_limit(&exactly));
    let long = task_with("0 * * * * *", policy(1, 20_000, 10_001), 60_000);
    assert!(exceed_recurrence_time_limit(&long));
}

#[test]
fn timeout_must_exceed_worst_case() {
    assert!(is_minimum_recurrence_time_valid(&task_with("0 * * * * *", policy(3, 200, 500), 2901)));
    assert!(!is_minimum_recurrence_time_valid(&task_with("0 * * * * *", policy(3, 200, 500), 2900)));
    assert!(!is_minimum_recurrence_time_valid(&task_with("0 * * * * *", policy(3, 200, 500), 100)));
}

#[test]
fn new_score_is_next_firing_after_current_score() {
    // every minute at second 0
    let t = task_with("0 * * * * *", policy(3, 200, 500), 60_000);
    assert_eq!(new_score(60, t.clone()), 120);
    assert_eq!(new_score(61, t.clone()), 120);
    assert_eq!(new_score(119, t), 120);
}

#[test]
fn new_score_hourly() {
    let t = task_with("0 0 * * * *", policy(1, 1, 1), 60_000);
    assert_eq!(new_score(0, t.clone()), 3600);
    assert_eq!(new_score(1_693_964_754, t), 1_693_965_600);
}

#[test]
fn try_new_score_without_next_firing() {
    let bad = task_with("not a cron", policy(1, 1, 1), 60_000);
    assert_eq!(try_new_score(100, &bad), None);
    let past = task_with("0 0 0 1 1 * 2000", policy(1, 1, 1), 60_000);
    assert_eq!(try_new_score(1_693_964_754, &past), None);
    let every_second = task_with("* * * * * *", policy(1, 1, 1), 60_000);
    assert_eq!(try_new_score(8_210_266_876_799, &every_second), None);
    assert_eq!(try_new_score(10, &every_second), Some(11));
}

#[test]
fn clones_are_equal() {
    let t = task_with("0 * * * * *", policy(3, 200, 500), 60_000);
    let c = t.clone();
    assert_eq!(c.name, t.name);
    assert_eq!(c.schedule, t.schedule);
    assert_eq!(c.url, t.url);
    assert_eq!(c.execution_timeout, t.execution_timeout);
    assert_eq!(c.retry_policy.times, t.retry_policy.times);
    assert_eq!(c.retry_policy.interval, t.retry_policy.interval);
    assert_eq!(c.retry_policy.jitter_limit, t.retry_policy.jitter_limit);
}

#[test]
fn retry_waits_follow_readme_policy() {
    let p = policy(3, 200, 500);
    assert_eq!(retry_wait(&p, 0, 0), 200);
    assert_eq!(retry_wait(&p, 1, 0), 400);
    assert_eq!(retry_wait(&p, 2, 0), 800);
    // worst cases: 700, 900, 1300, summing to 2900
    assert_eq!(retry_wait(&p, 0, 500) + retry_wait(&p, 1, 500) + retry_wait(&p, 2, 500), 2900);
    assert_eq!(retry_wait(&p, 2, 37), 837);
}

#[test]
fn jitter_stays_within_limit() {
    let p = policy(3, 200, 500);
    for _ in 0..1000 {
        let j = random_jitter(&p);
        assert!((0..=500).contains(&j));
    }
    assert_eq!(random_jitter(&policy(3, 200, 0)), 0);
    assert_eq!(random_jitter(&policy(3, 200, -5)), 0);
    let one = policy(3, 200, 1);
    for _ in 0..100 {
        assert!((0..=1).contains(&random_jitter(&one)));
    }
}

#[test]
fn jitter_from_draw_reduces_draw() {
    let p = policy(3, 200, 500);
    assert_eq!(jitter_from_draw(&p, 0), 0);
    assert_eq!(jitter_from_draw(&p, 500), 500);
    assert_eq!(jitter_from_draw(&p, 501), 0);
    assert_eq!(jitter_from_draw(&p, 1234), 1234 % 501);
    assert_eq!(jitter_from_draw(&p, u64::MAX), (u64::MAX % 501) as i32);
    assert_eq!(jitter_from_draw(&policy(3, 200, 0), 77), 0);
    assert_eq!(jitter_from_draw(&policy(3, 200, -9), 77), 0);
    assert_eq!(jitter_from_draw(&policy(3, 200, i32::MAX), u64::MAX), (u64::MAX % (1u64 << 31)) as i32);
}
