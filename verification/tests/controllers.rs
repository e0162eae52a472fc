use schedulinator::controllers::execution::{
    after_delivery, after_reschedule, split_outcomes, AfterDelivery,
};
use schedulinator::controllers::insertion::{after_cache_write, plan_insert, try_plan_insert};
use schedulinator::schemas::models::task::{RetryPolicy, Task};
use schedulinator::schemas::models::task_execution::TaskExecutionData;

fn task(schedule: &str, times: i32, interval: i32, jitter_limit: i32, timeout: i32) -> Task {
    Task {
        name: "job".to_string(),
        schedule: schedule.to_string(),
        url: "http://job".to_string(),
        retry_policy: RetryPolicy { times, interval, jitter_limit },
        execution_timeout: timeout,
    }
}

fn execution(score: i64, schedule: &str) -> TaskExecutionData {
    TaskExecutionData { name: "job".to_string(), score, task: task(schedule, 1, 1, 1, 10) }
}

#[test]
fn registration_refuses_long_retries() {
    let r = plan_insert(&task("0 * * * * *", 3, 200, 500, 2900), 0);
    assert_eq!(
        r.unwrap_err(),
        "The worst case of the retry policy (2900) is bigger than the recurrence time 2900"
    );
    let r = plan_insert(&task("0 * * * * *", 1, -10, 0, -20), 0);
    assert_eq!(
        r.unwrap_err(),
        "The worst case of the retry policy (-10) is bigger than the recurrence time -20"
    );
}

#[test]
fn registration_refuses_bad_schedule() {
    let r = plan_insert(&task("every minute", 3, 200, 500, 60_000), 0);
    assert_eq!(r.unwrap_err(), "Invalid expression: Invalid cron expression.");
}

#[test]
fn registration_refuses_schedule_without_future() {
    let r = plan_insert(&task("0 0 0 1 1 * 2000", 3, 200, 500, 60_000), 1_700_000_000);
    assert_eq!(r.unwrap_err(), "There is no next execution for the task");
}

#[test]
fn registration_finds_first_run() {
    let r = plan_insert(&task("0 0 * * * *", 3, 200, 500, 60_000), 1_693_964_754);
    assert_eq!(r.unwrap(), 1_693_965_600);
}

#[test]
fn cache_write_outcome() {
    let t = after_cache_write(task("0 * * * * *", 1, 1, 1, 10), true).unwrap();
    assert_eq!(t.name, "job");
    let e = after_cache_write(task("0 * * * * *", 1, 1, 1, 10), false).unwrap_err();
    assert_eq!(e, "It wasn't possible to insert on cache");
}

#[test]
fn delivery_ok_reschedules_at_next_firing() {
    match after_delivery(&execution(60, "0 * * * * *"), Some(200), 0) {
        AfterDelivery::Reschedule(score) => assert_eq!(score, 120),
        other => panic!("unexpected {:?}", other),
    }
    match after_delivery(&execution(60, "broken"), Some(200), 0) {
        AfterDelivery::NoNextExecution => {}
        other => panic!("unexpected {:?}", other),
    }
}

#[test]
fn failed_delivery_is_retried_while_retries_are_left() {
    // the execution's policy has times = 1
    match after_delivery(&execution(60, "0 * * * * *"), Some(500), 0) {
        AfterDelivery::Retry(attempt) => assert_eq!(attempt, 0),
        other => panic!("unexpected {:?}", other),
    }
    match after_delivery(&execution(60, "0 * * * * *"), None, 0) {
        AfterDelivery::Retry(attempt) => assert_eq!(attempt, 0),
        other => panic!("unexpected {:?}", other),
    }
    let mut three = execution(60, "0 * * * * *");
    three.task.retry_policy = RetryPolicy { times: 3, interval: 200, jitter_limit: 500 };
    match after_delivery(&three, Some(404), 2) {
        AfterDelivery::Retry(attempt) => assert_eq!(attempt, 2),
        other => panic!("unexpected {:?}", other),
    }
    match after_delivery(&three, Some(404), 3) {
        AfterDelivery::Failed(m) => assert_eq!(m, ""),
        other => panic!("unexpected {:?}", other),
    }
}

#[test]
fn delivery_failures_without_retries_left() {
    match after_delivery(&execution(60, "0 * * * * *"), Some(500), 1) {
        AfterDelivery::Failed(m) => assert_eq!(m, ""),
        other => panic!("unexpected {:?}", other),
    }
    match after_delivery(&execution(60, "0 * * * * *"), None, 1) {
        AfterDelivery::Failed(m) => assert_eq!(m, "err"),
        other => panic!("unexpected {:?}", other),
    }
    let mut no_retries = execution(60, "0 * * * * *");
    no_retries.task.retry_policy = RetryPolicy { times: 0, interval: 200, jitter_limit: 500 };
    match after_delivery(&no_retries, None, 0) {
        AfterDelivery::Failed(m) => assert_eq!(m, "err"),
        other => panic!("unexpected {:?}", other),
    }
}

#[test]
fn registration_at_last_second() {
    let last = 8_210_266_876_799;
    assert!(try_plan_insert(&task("0 0 * * * *", 3, 200, 500, 60_000), last).is_none());
    let refused = try_plan_insert(&task("0 0 * * * *", 3, 200, 500, 100), last).unwrap();
    assert!(refused.unwrap_err().starts_with("The worst case of the retry policy (2900)"));
    let bad = try_plan_insert(&task("nonsense", 3, 200, 500, 60_000), last).unwrap();
    assert_eq!(bad.unwrap_err(), "Invalid expression: Invalid cron expression.");
    let normal = try_plan_insert(&task("0 0 * * * *", 3, 200, 500, 60_000), 0).unwrap();
    assert_eq!(normal.unwrap(), 3600);
}

#[test]
fn reschedule_outcome() {
    assert_eq!(after_reschedule(execution(5, "0 * * * * *"), true).unwrap().score, 5);
    assert_eq!(after_reschedule(execution(5, "0 * * * * *"), false).unwrap_err(), "err");
}

#[test]
fn round_is_split_in_order() {
    let results = vec![
        Ok(execution(1, "a")),
        Err("x".to_string()),
        Ok(execution(2, "b")),
        Err("y".to_string()),
    ];
    let (ok, errors) = split_outcomes(results);
    assert_eq!(ok.iter().map(|d| d.score).collect::<Vec<_>>(), vec![1, 2]);
    assert_eq!(errors, vec!["x".to_string(), "y".to_string()]);
}
