//! The part of `sql_builder` that the library uses to write an INSERT
//! statement: the builder, its fields, its value rows and quoting.

use vstd::prelude::*;
use sql_builder::SqlBuilder;
use crate::text::join;

verus! {

#[verifier::external_type_specification]
#[verifier::external_body]
pub struct ExSqlBuilder(SqlBuilder);

/// The builder makes an INSERT statement whose values are given as rows
/// (none yet, or some rows; not a SELECT), without a RETURNING clause.
pub uninterp spec fn sql_plain_insert(builder: SqlBuilder) -> bool;

/// The table the builder's statement is about.
pub uninterp spec fn sql_table(builder: SqlBuilder) -> Seq<char>;

/// The fields given to the builder, in order.
pub uninterp spec fn sql_fields(builder: SqlBuilder) -> Seq<Seq<char>>;

/// The value rows given to the builder, each already in parentheses
/// (empty where no row was given, or where the values are a SELECT).
pub uninterp spec fn sql_value_rows(builder: SqlBuilder) -> Seq<Seq<char>>;

/// `text` with every single quote doubled (`sql_builder::esc`).
pub open spec fn sql_escape(text: Seq<char>) -> Seq<char>
    decreases text.len(),
{
    if text.len() == 0 {
        seq![]
    } else {
        sql_escape(text.drop_last()) + if text.last() == '\'' {
            seq!['\'', '\'']
        } else {
            seq![text.last()]
        }
    }
}

/// `text` escaped and put between single quotes (`sql_builder::quote`).
pub open spec fn sql_quoted(text: Seq<char>) -> Seq<char> {
    seq!['\''] + sql_escape(text) + seq!['\'']
}

/// The row `(v1, v2, ...)` that `SqlBuilder::values` adds for `values`.
pub open spec fn sql_value_row(values: Seq<Seq<char>>) -> Seq<char> {
    seq!['('] + join(values, ", "@) + seq![')']
}

/// The statement `SqlBuilder::sql` writes for a plain INSERT.
pub open spec fn sql_insert_text(
    table: Seq<char>,
    fields: Seq<Seq<char>>,
    rows: Seq<Seq<char>>,
) -> Seq<char> {
    "INSERT INTO "@ + table + " ("@ + join(fields, ", "@) + ") VALUES "@ + join(rows, ", "@) + ";"@
}

/// `SqlBuilder::insert_into(table)`: a plain INSERT into `table`, with no
/// field and no value row yet.
#[verifier::external_body]
pub(crate) fn sql_insert_into(table: &str) -> (builder: SqlBuilder)
    ensures
        sql_plain_insert(builder),
        sql_table(builder) == table@,
        sql_fields(builder) == Seq::<Seq<char>>::empty(),
        sql_value_rows(builder) == Seq::<Seq<char>>::empty(),
{
    SqlBuilder::insert_into(table)
}

/// `SqlBuilder::field`: appends `field` to the fields.
#[verifier::external_body]
pub(crate) fn sql_add_field(builder: &mut SqlBuilder, field: &str)
    ensures
        sql_plain_insert(*final(builder)) == sql_plain_insert(*old(builder)),
        sql_table(*final(builder)) == sql_table(*old(builder)),
        sql_fields(*final(builder)) == sql_fields(*old(builder)).push(field@),
        sql_value_rows(*final(builder)) == sql_value_rows(*old(builder)),
{
    builder.field(field);
}

/// `SqlBuilder::values`: appends the row `(v1, v2, ...)` of the values
/// (values given by a SELECT before are replaced by this row).
#[verifier::external_body]
pub(crate) fn sql_add_values(builder: &mut SqlBuilder, values: &[String])
    ensures
        sql_plain_insert(*old(builder)) ==> sql_plain_insert(*final(builder)),
        sql_table(*final(builder)) == sql_table(*old(builder)),
        sql_fields(*final(builder)) == sql_fields(*old(builder)),
        sql_value_rows(*final(builder)) == sql_value_rows(*old(builder)).push(
            sql_value_row(values@.map_values(|v: String| v@)),
        ),
{
    builder.values(values);
}

/// `SqlBuilder::sql` for a plain INSERT: fails when the table name is
/// empty or no value row was given; otherwise
/// `INSERT INTO table (f1, f2, ...) VALUES (..), (..);`.
#[verifier::external_body]
pub(crate) fn sql_render(builder: &SqlBuilder) -> (r: Option<String>)
    ensures
        sql_plain_insert(*builder) ==> (r is None <==> (sql_table(*builder).len() == 0
            || sql_value_rows(*builder).len() == 0)),
        sql_plain_insert(*builder) ==> (r matches Some(s) ==> s@ == sql_insert_text(
            sql_table(*builder),
            sql_fields(*builder),
            sql_value_rows(*builder),
        )),
{
    builder.sql().ok()
}

/// `sql_builder::quote`: the text between single quotes, inner quotes doubled.
#[verifier::external_body]
pub(crate) fn sql_quote(text: &str) -> (r: String)
    ensures
        r@ == sql_quoted(text@),
{
    sql_builder::quote(text)
}

} // verus!
