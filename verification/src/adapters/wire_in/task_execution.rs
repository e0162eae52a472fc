use vstd::prelude::*;
use vstd::utf8::{decode_utf8, encode_utf8, encode_utf8_decode_utf8, valid_utf8};
use crate::adapters::wire_out::redis::task::to_dto_spec;
use crate::schemas::models;
use crate::schemas::models::task_execution::TaskExecutionData;
use crate::schemas::wire_in::redis::RedisValue;
use crate::schemas::wire_out;
use crate::text::utf8_to_string;

verus! {

/// The task model of a cached task.
pub open spec fn from_dto_spec(task: wire_out::redis::task::Task) -> models::task::Task {
    models::task::Task {
        execution_timeout: task.et,
        name: task.n,
        url: task.u,
        schedule: task.s,
        retry_policy: models::task::RetryPolicy {
            interval: task.rp.i,
            jitter_limit: task.rp.j,
            times: task.rp.t,
        },
    }
}

/// Turns a cached task back into the task model.
pub fn from_dto(task: &wire_out::redis::task::Task) -> (r: models::task::Task)
    ensures
        r == from_dto_spec(*task),
        r.name == task.n,
        r.schedule == task.s,
        r.url == task.u,
        r.execution_timeout == task.et,
        r.retry_policy.times == task.rp.t,
        r.retry_policy.interval == task.rp.i,
        r.retry_policy.jitter_limit == task.rp.j,
{
    models::task::Task {
        execution_timeout: task.et,
        name: task.n.clone(),
        url: task.u.clone(),
        schedule: task.s.clone(),
        retry_policy: models::task::RetryPolicy {
            interval: task.rp.i,
            jitter_limit: task.rp.j,
            times: task.rp.t,
        },
    }
}

/// A cached task's short names read back into the model's fields:
/// `n` name, `s` schedule, `u` url, `et` execution timeout, and in `rp`,
/// `t` times, `i` interval, `j` jitter limit.
pub proof fn lemma_from_dto_short_names(task: wire_out::redis::task::Task)
    ensures
        ({
            let m = from_dto_spec(task);
            &&& m.name == task.n
            &&& m.schedule == task.s
            &&& m.url == task.u
            &&& m.execution_timeout == task.et
            &&& m.retry_policy.times == task.rp.t
            &&& m.retry_policy.interval == task.rp.i
            &&& m.retry_policy.jitter_limit == task.rp.j
        }),
{
}

/// The member, score and serialised task of a reply triple
/// `[Data(member), Int(score), Data(task)]`; `None` for any other shape.
pub open spec fn reply_triple(pair: Seq<RedisValue>) -> Option<(Seq<u8>, i64, Seq<u8>)> {
    if pair.len() == 3 {
        match (pair[0], pair[1], pair[2]) {
            (RedisValue::Data(member), RedisValue::Int(score), RedisValue::Data(complete)) => Some(
                (member@, score, complete@),
            ),
            _ => None,
        }
    } else {
        None
    }
}

/// The texts of a reply triple are valid UTF-8 (reading a triple whose
/// member or task is not stops the program).
pub open spec fn triple_decodable(pair: Seq<RedisValue>) -> bool {
    reply_triple(pair) matches Some((member, score, complete)) ==> valid_utf8(member) && valid_utf8(
        complete,
    )
}

/// `out` is a result that `cache_to_model` can give for `pair`, when `decode`
/// turns a serialised task back into a cached task: nothing for a pair that
/// is not a reply triple; otherwise the decoded member and score with the
/// model of the task that `decode` gave, or nothing when `decode` gave nothing.
pub open spec fn cache_outcome<F: Fn(String) -> Option<wire_out::redis::task::Task>>(
    pair: Seq<RedisValue>,
    decode: F,
    out: Option<TaskExecutionData>,
) -> bool {
    match reply_triple(pair) {
        None => out is None,
        Some((member, score, complete)) => match out {
            None => exists|p: String|
                p@ == decode_utf8(complete) && #[trigger] call_ensures(decode, (p,), None),
            Some(d) => exists|p: String, t: wire_out::redis::task::Task|
                {
                    &&& p@ == decode_utf8(complete)
                    &&& #[trigger] call_ensures(decode, (p,), Some(t))
                    &&& d.name@ == decode_utf8(member)
                    &&& d.score == score
                    &&& d.task == from_dto_spec(t)
                },
        },
    }
}

/// Reads one reply triple `[Data(member), Int(score), Data(task)]` into the
/// data of a task execution; `decode` reads the serialised task.
pub fn cache_to_model<F: Fn(String) -> Option<wire_out::redis::task::Task>>(
    pair: &[RedisValue],
    decode: &F,
) -> (r: Option<TaskExecutionData>)
    requires
        forall|p: String| #[trigger] decode.requires((p,)),
        triple_decodable(pair@),
    ensures
        cache_outcome(pair@, *decode, r),
{
    if pair.len() != 3 {
        return None;
    }
    match (&pair[0], &pair[1], &pair[2]) {
        (RedisValue::Data(member), RedisValue::Int(score), RedisValue::Data(complete)) => {
            let member_str = utf8_to_string(member.clone()).unwrap();
            let cache_task_str = utf8_to_string(complete.clone()).unwrap();
            let ghost p = cache_task_str;
            match decode(cache_task_str) {
                Some(cache_task) => {
                    let task = from_dto(&cache_task);
                    let score_i64 = *score;
                    Some(TaskExecutionData { name: member_str, score: score_i64, task })
                },
                _ => None,
            }
        },
        _ => None,
    }
}

/// The `j`-th run of three values of a bulk reply.
pub open spec fn chunk(values: Seq<RedisValue>, j: int) -> Seq<RedisValue> {
    values.subrange(3 * j, 3 * j + 3)
}

/// Every run of three values that reading the reply reaches is decodable
/// where it is a reply triple. Reading a bulk item stops at its first run
/// that gives a task execution, so a run is reached when every run before
/// it in its item can give nothing.
pub open spec fn reply_decodable<F: Fn(String) -> Option<wire_out::redis::task::Task>>(
    items: Seq<RedisValue>,
    decode: F,
) -> bool {
    forall|i: int, j: int|
        0 <= i < items.len() && items[i] is Bulk && 0 <= j < items[i]->Bulk_0@.len() / 3 && (
        forall|k: int|
            0 <= k < j ==> cache_outcome(#[trigger] chunk(items[i]->Bulk_0@, k), decode, None))
            ==> triple_decodable(#[trigger] chunk(items[i]->Bulk_0@, j))
}

/// `out` is a result that one item of a reply can give: nothing for an item
/// that is not a bulk; for a bulk, the result of its first run of three that
/// gives a task execution, or nothing when none does.
pub open spec fn item_outcome<F: Fn(String) -> Option<wire_out::redis::task::Task>>(
    item: RedisValue,
    decode: F,
    out: Option<TaskExecutionData>,
) -> bool {
    match item {
        RedisValue::Bulk(values) => match out {
            None => forall|j: int|
                0 <= j < values@.len() / 3 ==> cache_outcome(
                    #[trigger] chunk(values@, j),
                    decode,
                    None,
                ),
            Some(d) => exists|j: int|
                {
                    &&& 0 <= j < values@.len() / 3
                    &&& forall|k: int|
                        0 <= k < j ==> cache_outcome(#[trigger] chunk(values@, k), decode, None)
                    &&& cache_outcome(#[trigger] chunk(values@, j), decode, Some(d))
                },
        },
        _ => out is None,
    }
}

/// The present values of a sequence of optional results, in order.
pub open spec fn present<T>(outs: Seq<Option<T>>) -> Seq<T>
    decreases outs.len(),
{
    if outs.len() == 0 {
        seq![]
    } else {
        let rest = present(outs.drop_last());
        match outs.last() {
            Some(v) => rest.push(v),
            None => rest,
        }
    }
}

/// `r` is a result that reading the bulk reply `items` can give: the
/// present results of its items, each item read on its own, in order.
pub open spec fn reply_read<F: Fn(String) -> Option<wire_out::redis::task::Task>>(
    items: Seq<RedisValue>,
    decode: F,
    r: Seq<TaskExecutionData>,
) -> bool {
    exists|outs: Seq<Option<TaskExecutionData>>| reply_outcomes(items, decode, outs) && r == present(
        outs,
    )
}

/// `outs` holds, item by item, a result that each item of `items` can give.
pub open spec fn reply_outcomes<F: Fn(String) -> Option<wire_out::redis::task::Task>>(
    items: Seq<RedisValue>,
    decode: F,
    outs: Seq<Option<TaskExecutionData>>,
) -> bool {
    &&& outs.len() == items.len()
    &&& forall|i: int| 0 <= i < items.len() ==> item_outcome(items[i], decode, #[trigger] outs[i])
}

/// Reads the reply of the task-taking script: for each bulk item, the first
/// of its runs of three values that reads as a task execution; items that
/// give none are left out.
pub fn bulk_cache_to_model<F: Fn(String) -> Option<wire_out::redis::task::Task>>(
    items: Vec<RedisValue>,
    decode: &F,
) -> (r: Vec<TaskExecutionData>)
    requires
        forall|p: String| #[trigger] decode.requires((p,)),
        reply_decodable(items@, *decode),
    ensures
        reply_read(items@, *decode, r@),
{
    let mut result: Vec<TaskExecutionData> = Vec::new();
    let ghost mut outs: Seq<Option<TaskExecutionData>> = seq![];
    let mut i: usize = 0;
    while i < items.len()
        invariant
            forall|p: String| #[trigger] decode.requires((p,)),
            reply_decodable(items@, *decode),
            0 <= i <= items.len(),
            outs.len() == i,
            forall|k: int| 0 <= k < i ==> item_outcome(items@[k], *decode, #[trigger] outs[k]),
            result@ == present(outs),
        decreases items.len() - i,
    {
        let mut found: Option<TaskExecutionData> = None;
        match &items[i] {
            RedisValue::Bulk(bulk_data) => {
                let n = bulk_data.len() / 3;
                let mut j: usize = 0;
                while j < n
                    invariant_except_break
                        found is None,
                    invariant
                        forall|p: String| #[trigger] decode.requires((p,)),
                        reply_decodable(items@, *decode),
                        0 <= i < items.len(),
                        items@[i as int] is Bulk,
                        items@[i as int]->Bulk_0 == *bulk_data,
                        n == bulk_data@.len() / 3,
                        0 <= j <= n,
                        forall|k: int|
                            0 <= k < j ==> cache_outcome(
                                #[trigger] chunk(bulk_data@, k),
                                *decode,
                                None,
                            ),
                    ensures
                        item_outcome(items@[i as int], *decode, found),
                    decreases n - j,
                {
                    assert(triple_decodable(chunk(bulk_data@, j as int)));
                    assert(3 * j + 3 <= bulk_data@.len()) by (nonlinear_arith)
                        requires
                            j < n,
                            n == bulk_data@.len() / 3,
                    ;
                    assert(bulk_data@.len() == bulk_data.len());
                    let pair = &bulk_data.as_slice()[3 * j..3 * j + 3];
                    assert(pair@ == chunk(bulk_data@, j as int));
                    let r = cache_to_model(pair, decode);
                    if r.is_some() {
                        found = r;
                        break;
                    }
                    j = j + 1;
                }
            },
            _ => {},
        }
        proof {
            let previous = outs;
            outs = outs.push(found);
            assert(outs.drop_last() == previous);
            if i + 1 == items.len() {
                assert(reply_outcomes(items@, *decode, outs));
            }
        }
        match found {
            Some(d) => result.push(d),
            None => {},
        }
        i = i + 1;
    }
    result
}

/// Present values of a concatenation are the concatenation of present values.
pub proof fn lemma_present_concat<T>(a: Seq<Option<T>>, b: Seq<Option<T>>)
    ensures
        present(a + b) == present(a) + present(b),
    decreases b.len(),
{
    if b.len() > 0 {
        lemma_present_concat(a, b.drop_last());
        assert((a + b).drop_last() == a + b.drop_last());
        assert((a + b).last() == b.last());
    } else {
        assert(a + b == a);
    }
}

/// There are no more present values than optional results.
pub proof fn lemma_present_len<T>(outs: Seq<Option<T>>)
    ensures
        present(outs).len() <= outs.len(),
    decreases outs.len(),
{
    if outs.len() > 0 {
        lemma_present_len(outs.drop_last());
    }
}

/// Reading two replies one after the other gives what reading their
/// concatenation can give.
pub proof fn lemma_reply_read_concat<F: Fn(String) -> Option<wire_out::redis::task::Task>>(
    xs: Seq<RedisValue>,
    ys: Seq<RedisValue>,
    decode: F,
    rx: Seq<TaskExecutionData>,
    ry: Seq<TaskExecutionData>,
)
    requires
        reply_read(xs, decode, rx),
        reply_read(ys, decode, ry),
    ensures
        reply_read(xs + ys, decode, rx + ry),
{
    let ox = choose|o: Seq<Option<TaskExecutionData>>| reply_outcomes(xs, decode, o) && rx == present(o);
    let oy = choose|o: Seq<Option<TaskExecutionData>>| reply_outcomes(ys, decode, o) && ry == present(o);
    lemma_present_concat(ox, oy);
    assert forall|i: int| 0 <= i < (xs + ys).len() implies item_outcome(
        (xs + ys)[i],
        decode,
        #[trigger] (ox + oy)[i],
    ) by {
        if i < xs.len() {
            assert(item_outcome(xs[i], decode, ox[i]));
        } else {
            assert(item_outcome(ys[i - xs.len()], decode, oy[i - xs.len()]));
        }
    }
    assert(reply_outcomes(xs + ys, decode, ox + oy));
}

/// What reading a concatenated reply gives splits into what reading each
/// part gives.
pub proof fn lemma_reply_read_split<F: Fn(String) -> Option<wire_out::redis::task::Task>>(
    xs: Seq<RedisValue>,
    ys: Seq<RedisValue>,
    decode: F,
    r: Seq<TaskExecutionData>,
)
    requires
        reply_read(xs + ys, decode, r),
    ensures
        exists|rx: Seq<TaskExecutionData>, ry: Seq<TaskExecutionData>|
            reply_read(xs, decode, rx) && reply_read(ys, decode, ry) && r == rx + ry,
{
    let o = choose|o: Seq<Option<TaskExecutionData>>|
        reply_outcomes(xs + ys, decode, o) && r == present(o);
    let ox = o.subrange(0, xs.len() as int);
    let oy = o.subrange(xs.len() as int, o.len() as int);
    assert(o == ox + oy);
    lemma_present_concat(ox, oy);
    assert forall|i: int| 0 <= i < xs.len() implies item_outcome(xs[i], decode, #[trigger] ox[i]) by {
        assert((xs + ys)[i] == xs[i]);
        assert(item_outcome((xs + ys)[i], decode, o[i]));
    }
    assert forall|i: int| 0 <= i < ys.len() implies item_outcome(ys[i], decode, #[trigger] oy[i]) by {
        assert((xs + ys)[i + xs.len()] == ys[i]);
        assert(item_outcome((xs + ys)[i + xs.len()], decode, o[i + xs.len()]));
    }
    assert(reply_outcomes(xs, decode, ox));
    assert(reply_outcomes(ys, decode, oy));
    assert(reply_read(xs, decode, present(ox)));
    assert(reply_read(ys, decode, present(oy)));
}

/// Reading a reply gives at most one task execution per item.
pub proof fn lemma_reply_read_len<F: Fn(String) -> Option<wire_out::redis::task::Task>>(
    items: Seq<RedisValue>,
    decode: F,
    r: Seq<TaskExecutionData>,
)
    requires
        reply_read(items, decode, r),
    ensures
        r.len() <= items.len(),
{
    let o = choose|o: Seq<Option<TaskExecutionData>>| reply_outcomes(items, decode, o) && r == present(o);
    lemma_present_len(o);
}

/// A cached task reads back intact: a triple of the UTF-8 bytes of a name,
/// a score, and a payload that the decoder can only read as the cached form
/// of `task`, gives the execution of `task` under that name and score.
pub proof fn lemma_cached_entry_reads_back<F: Fn(String) -> Option<wire_out::redis::task::Task>>(
    name: Seq<char>,
    score: i64,
    member: Vec<u8>,
    payload: Vec<u8>,
    task: models::task::Task,
    decode: F,
    out: Option<TaskExecutionData>,
)
    requires
        member@ == encode_utf8(name),
        valid_utf8(payload@),
        forall|p: String, r: Option<wire_out::redis::task::Task>|
            p@ == decode_utf8(payload@) && #[trigger] call_ensures(decode, (p,), r) ==> r == Some(
                to_dto_spec(task),
            ),
        cache_outcome(
            seq![RedisValue::Data(member), RedisValue::Int(score), RedisValue::Data(payload)],
            decode,
            out,
        ),
    ensures
        out matches Some(d) && d.name@ == name && d.score == score && d.task == task,
{
    encode_utf8_decode_utf8(name);
    let pair = seq![RedisValue::Data(member), RedisValue::Int(score), RedisValue::Data(payload)];
    assert(reply_triple(pair) == Some((member@, score, payload@)));
}

} // verus!
