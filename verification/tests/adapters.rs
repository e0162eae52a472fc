use schedulinator::adapters::wire_in::task::to_model;
use schedulinator::adapters::wire_in::task_execution::{bulk_cache_to_model, cache_to_model, from_dto};
use schedulinator::adapters::wire_out::http::task::to_wire;
use schedulinator::adapters::wire_out::redis::task::to_dto;
use schedulinator::schemas::models::task::{RetryPolicy, Task};
use schedulinator::schemas::wire_in;
use schedulinator::schemas::wire_in::redis::RedisValue;
use schedulinator::schemas::wire_out;

fn model() -> Task {
    Task {
        name: "billing".to_string(),
        schedule: "0 0 * * * *".to_string(),
        url: "http://billing/run".to_string(),
        retry_policy: RetryPolicy { times: 3, interval: 200, jitter_limit: 500 },
        execution_timeout: 3600,
    }
}

fn cached(name: &str) -> wire_out::redis::task::Task {
    wire_out::redis::task::Task {
        n: name.to_string(),
        s: "0 * * * * *".to_string(),
        u: "http://x/y".to_string(),
        rp: wire_out::redis::task::RetryPolicy { t: 2, i: 10, j: 5 },
        et: 999,
    }
}

/// Stands for the JSON decoding done by the program: payload `ok:<name>`
/// decodes to a cached task named `<name>`, anything else fails.
fn decode(payload: String) -> Option<wire_out::redis::task::Task> {
    payload.strip_prefix("ok:").map(cached)
}

fn triple(member: &str, score: i64, payload: &str) -> Vec<RedisValue> {
    vec![
        RedisValue::Data(member.as_bytes().to_vec()),
        RedisValue::Int(score),
        RedisValue::Data(payload.as_bytes().to_vec()),
    ]
}

#[test]
fn to_model_copies_every_field() {
    let dto = wire_in::task::Task {
        name: "a".to_string(),
        schedule: "0 * * * * *".to_string(),
        url: "http://a".to_string(),
        retry_policy: wire_in::task::RetryPolicy { times: 4, interval: 5, jitter_limit: 6 },
        execution_timeout: 7,
    };
    let m = to_model(&dto);
    assert_eq!(m.name, "a");
    assert_eq!(m.schedule, "0 * * * * *");
    assert_eq!(m.url, "http://a");
    assert_eq!(m.retry_policy.times, 4);
    assert_eq!(m.retry_policy.interval, 5);
    assert_eq!(m.retry_policy.jitter_limit, 6);
    assert_eq!(m.execution_timeout, 7);
    let answer = to_wire(&m);
    assert_eq!(answer.name, dto.name);
    assert_eq!(answer.schedule, dto.schedule);
    assert_eq!(answer.url, dto.url);
    assert_eq!(answer.retry_policy.times, 4);
    assert_eq!(answer.retry_policy.interval, 5);
    assert_eq!(answer.retry_policy.jitter_limit, 6);
    assert_eq!(answer.execution_timeout, 7);
}

#[test]
fn cache_round_trip() {
    let m = model();
    let dto = to_dto(&m);
    assert_eq!(dto.n, "billing");
    assert_eq!(dto.s, "0 0 * * * *");
    assert_eq!(dto.u, "http://billing/run");
    assert_eq!(dto.et, 3600);
    assert_eq!((dto.rp.t, dto.rp.i, dto.rp.j), (3, 200, 500));
    let back = from_dto(&dto);
    assert_eq!(back.name, m.name);
    assert_eq!(back.schedule, m.schedule);
    assert_eq!(back.url, m.url);
    assert_eq!(back.execution_timeout, m.execution_timeout);
    assert_eq!(back.retry_policy.times, m.retry_policy.times);
    assert_eq!(back.retry_policy.interval, m.retry_policy.interval);
    assert_eq!(back.retry_policy.jitter_limit, m.retry_policy.jitter_limit);
}

#[test]
fn cache_triple_reads_into_execution_data() {
    let pair = triple("billing", 1_693_964_754, "ok:billing");
    let data = cache_to_model(&pair, &decode).unwrap();
    assert_eq!(data.name, "billing");
    assert_eq!(data.score, 1_693_964_754);
    assert_eq!(data.task.name, "billing");
    assert_eq!(data.task.url, "http://x/y");
    assert_eq!(data.task.execution_timeout, 999);
    assert_eq!(data.task.retry_policy.times, 2);
}

#[test]
fn cache_triple_with_unicode_member() {
    let pair = triple("tâche-é", 5, "ok:x");
    let data = cache_to_model(&pair, &decode).unwrap();
    assert_eq!(data.name, "tâche-é");
}

#[test]
fn cache_triple_of_other_shapes_reads_as_nothing() {
    assert!(cache_to_model(&triple("a", 1, "garbage"), &decode).is_none());
    let two = vec![RedisValue::Data(b"a".to_vec()), RedisValue::Int(1)];
    assert!(cache_to_model(&two, &decode).is_none());
    let nil_task = vec![RedisValue::Data(b"a".to_vec()), RedisValue::Int(1), RedisValue::Nil];
    assert!(cache_to_model(&nil_task, &decode).is_none());
    let swapped = vec![RedisValue::Int(1), RedisValue::Data(b"a".to_vec()), RedisValue::Data(b"ok:a".to_vec())];
    assert!(cache_to_model(&swapped, &decode).is_none());
    let mut four = triple("a", 1, "ok:a");
    four.push(RedisValue::Okay);
    assert!(cache_to_model(&four, &decode).is_none());
}

#[test]
fn bulk_reply_keeps_first_readable_triple_of_each_item() {
    let mut second = triple("skipped", 1, "bad");
    second.extend(triple("kept", 2, "ok:kept"));
    second.extend(triple("later", 3, "ok:later"));
    second.push(RedisValue::Int(9)); // incomplete run of three is ignored
    let items = vec![
        RedisValue::Bulk(triple("first", 10, "ok:first")),
        RedisValue::Int(4),
        RedisValue::Bulk(second),
        RedisValue::Bulk(triple("unreadable", 11, "nope")),
        RedisValue::Bulk(vec![]),
        RedisValue::Status("x".to_string()),
    ];
    let tasks = bulk_cache_to_model(items, &decode);
    assert_eq!(tasks.len(), 2);
    assert_eq!(tasks[0].name, "first");
    assert_eq!(tasks[0].score, 10);
    assert_eq!(tasks[1].name, "kept");
    assert_eq!(tasks[1].score, 2);
    assert_eq!(tasks[1].task.name, "kept");
}

#[test]
fn empty_bulk_reply_has_no_task() {
    assert!(bulk_cache_to_model(vec![], &decode).is_empty());
}

#[test]
fn bulk_reading_stops_at_first_readable_triple() {
    // the triple after the readable one is not UTF-8 and is never reached
    let mut values = triple("first", 1, "ok:first");
    values.push(RedisValue::Data(vec![0xff, 0xfe]));
    values.push(RedisValue::Int(2));
    values.push(RedisValue::Data(vec![0xc0]));
    let tasks = bulk_cache_to_model(vec![RedisValue::Bulk(values)], &decode);
    assert_eq!(tasks.len(), 1);
    assert_eq!(tasks[0].name, "first");
}
