use vstd::prelude::*;
use vstd::string::StringExecFns;
use crate::schemas::models::task;
use crate::sql::{
    sql_add_field, sql_add_values, sql_fields, sql_table, sql_value_rows, sql_insert_into, sql_insert_text, sql_quote, sql_quoted,
    sql_render, sql_value_row,
};
use crate::text::{decimal, i32_to_string};

verus! {

/// The columns of the `tasks` table that a new task fills, in order.
pub open spec fn task_columns() -> Seq<Seq<char>> {
    seq![
        "name"@,
        "schedule"@,
        "url"@,
        "executionTimeout"@,
        "retryTimes"@,
        "retryInterval"@,
        "retryJitterLimit"@,
    ]
}

/// The quoted values of a task for those columns; numbers are written in
/// decimal and quoted like text.
pub open spec fn task_column_values(task: task::Task) -> Seq<Seq<char>> {
    seq![
        sql_quoted(task.name@),
        sql_quoted(task.schedule@),
        sql_quoted(task.url@),
        sql_quoted(decimal(task.execution_timeout as int)),
        sql_quoted(decimal(task.retry_policy.times as int)),
        sql_quoted(decimal(task.retry_policy.interval as int)),
        sql_quoted(decimal(task.retry_policy.jitter_limit as int)),
    ]
}

/// Each column of a new task's row holds the task field it is named after:
/// the name, schedule and url quoted, and the execution timeout, retry
/// times, retry interval and retry jitter limit in decimal, quoted.
pub proof fn lemma_columns_hold_their_fields(task: task::Task)
    ensures
        task_columns().len() == 7,
        task_column_values(task).len() == 7,
        task_columns()[0] == "name"@ && task_column_values(task)[0] == sql_quoted(task.name@),
        task_columns()[1] == "schedule"@ && task_column_values(task)[1] == sql_quoted(
            task.schedule@,
        ),
        task_columns()[2] == "url"@ && task_column_values(task)[2] == sql_quoted(task.url@),
        task_columns()[3] == "executionTimeout"@ && task_column_values(task)[3] == sql_quoted(
            decimal(task.execution_timeout as int),
        ),
        task_columns()[4] == "retryTimes"@ && task_column_values(task)[4] == sql_quoted(
            decimal(task.retry_policy.times as int),
        ),
        task_columns()[5] == "retryInterval"@ && task_column_values(task)[5] == sql_quoted(
            decimal(task.retry_policy.interval as int),
        ),
        task_columns()[6] == "retryJitterLimit"@ && task_column_values(task)[6] == sql_quoted(
            decimal(task.retry_policy.jitter_limit as int),
        ),
{
}

/// The statement that stores a new task.
pub open spec fn task_insert_sql(task: task::Task) -> Seq<char> {
    sql_insert_text("tasks"@, task_columns(), seq![sql_value_row(task_column_values(task))])
}

/// The statement that stores a new task in the `tasks` table. Building it
/// never fails: the table has a name and the statement one row of values.
pub fn insert_statement(task: &task::Task) -> (r: Result<String, String>)
    ensures
        r matches Ok(sql) && sql@ == task_insert_sql(*task),
        r matches Ok(sql) && sql@ == sql_insert_text(
            "tasks"@,
            seq![
                "name"@,
                "schedule"@,
                "url"@,
                "executionTimeout"@,
                "retryTimes"@,
                "retryInterval"@,
                "retryJitterLimit"@,
            ],
            seq![
                sql_value_row(
                    seq![
                        sql_quoted(task.name@),
                        sql_quoted(task.schedule@),
                        sql_quoted(task.url@),
                        sql_quoted(decimal(task.execution_timeout as int)),
                        sql_quoted(decimal(task.retry_policy.times as int)),
                        sql_quoted(decimal(task.retry_policy.interval as int)),
                        sql_quoted(decimal(task.retry_policy.jitter_limit as int)),
                    ],
                ),
            ],
        ),
{
    let mut sql_builder = sql_insert_into("tasks");
    sql_add_field(&mut sql_builder, "name");
    sql_add_field(&mut sql_builder, "schedule");
    sql_add_field(&mut sql_builder, "url");
    sql_add_field(&mut sql_builder, "executionTimeout");
    sql_add_field(&mut sql_builder, "retryTimes");
    sql_add_field(&mut sql_builder, "retryInterval");
    sql_add_field(&mut sql_builder, "retryJitterLimit");
    let mut values: Vec<String> = Vec::new();
    values.push(sql_quote(task.name.as_str()));
    values.push(sql_quote(task.schedule.as_str()));
    values.push(sql_quote(task.url.as_str()));
    values.push(sql_quote(i32_to_string(task.execution_timeout).as_str()));
    values.push(sql_quote(i32_to_string(task.retry_policy.times).as_str()));
    values.push(sql_quote(i32_to_string(task.retry_policy.interval).as_str()));
    values.push(sql_quote(i32_to_string(task.retry_policy.jitter_limit).as_str()));
    sql_add_values(&mut sql_builder, values.as_slice());
    proof {
        reveal_strlit("tasks");
        assert(values@.map_values(|v: String| v@) =~= task_column_values(*task));
        assert(sql_fields(sql_builder) =~= task_columns());
        assert(sql_value_rows(sql_builder) =~= seq![sql_value_row(task_column_values(*task))]);
        assert(sql_table(sql_builder).len() > 0);
    }
    match sql_render(&sql_builder) {
        Some(this_sql) => Ok(this_sql),
        None => Err(String::from_str("Couldn't able to create the query")),
    }
}

} // verus!
