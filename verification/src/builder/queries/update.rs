//! UPDATE statements.
use vstd::prelude::*;
use crate::text::{first_index, join, join_seqs, lemma_first_index, owned, push_str, string_views};
use crate::values::value::{Value, ValueView, value_text};
use crate::values::values::{index_of_name, name_is};
use crate::builder::columns::named_pred;
use crate::builder::table::{TableView, is_primary_key_pred};
use crate::builder::{QueryBuilder, QueryBuilderView, QueryType};
use super::insert::{backend_is_rollback, is_rollback, value_column, values_resolve};

verus! {

/// Text-like values are bound as parameters; the others are written as literals.
pub open spec fn is_bound(v: ValueView) -> bool {
    v is Identifier || v is Text || v is Blob || v is Json
}

/// One `column = ?` (bound value) or `column = literal` assignment.
pub open spec fn assignment_sql(column: Seq<char>, v: ValueView) -> Seq<char> {
    column + " = "@ + if is_bound(v) { "?"@ } else { value_text(v) }
}

/// The assignments of an UPDATE: one per value, in order, except for values of
/// primary key columns.
pub open spec fn update_items(vals: Seq<(Seq<char>, ValueView)>, t: TableView) -> Seq<Seq<char>>
    decreases vals.len(),
{
    if vals.len() == 0 {
        Seq::empty()
    } else {
        let prev = update_items(vals.drop_last(), t);
        let c = value_column(t, vals.last().0);
        if c.column_options.primary_key {
            prev
        } else {
            prev.push(assignment_sql(c.name@, vals.last().1))
        }
    }
}

/// The values an UPDATE assigns: those whose column is not the primary key.
pub open spec fn assigned(t: TableView) -> spec_fn((Seq<char>, ValueView)) -> bool {
    |v: (Seq<char>, ValueView)| !value_column(t, v.0).column_options.primary_key
}

/// The UPDATE assigns, in the order of the values, every value whose column is
/// not the primary key, and nothing else.
pub proof fn lemma_update_assigns_every_non_key_value(vals: Seq<(Seq<char>, ValueView)>, t: TableView)
    ensures
        update_items(vals, t) == vals.filter(assigned(t)).map_values(
            |v: (Seq<char>, ValueView)| assignment_sql(value_column(t, v.0).name@, v.1),
        ),
    decreases vals.len(),
{
    reveal_with_fuel(Seq::filter, 1);
    if vals.len() > 0 {
        lemma_update_assigns_every_non_key_value(vals.drop_last(), t);
        let f = |v: (Seq<char>, ValueView)| assignment_sql(value_column(t, v.0).name@, v.1);
        let prev = vals.drop_last().filter(assigned(t));
        if assigned(t)(vals.last()) {
            assert(prev.push(vals.last()).map_values(f) =~= prev.map_values(f).push(f(vals.last())));
        }
    }
}

/// The SET list of the UPDATE statement of a query with a table: the assignments
/// of the values whose column is not the primary key, in order, separated by `, `.
pub proof fn lemma_update_statement_sets(q: QueryBuilderView)
    requires
        q.database.len() > 0,
    ensures
        update_sql(q) == (if is_rollback(q.backend) { "UPDATE OR ROLLBACK "@ } else { "UPDATE "@ })
            + q.database[0].name + " SET "@ + join_seqs(
            q.values.filter(assigned(q.database[0])).map_values(
                |v: (Seq<char>, ValueView)| assignment_sql(value_column(q.database[0], v.0).name@, v.1),
            ),
            ", "@,
        ) + match primary_key_of(q.database[0]) {
            Some(pk) => " WHERE "@ + pk + " = "@ + value_text(q.values[index_of_name(q.values, pk).unwrap()].1),
            None => Seq::empty(),
        } + ";"@,
{
    lemma_update_assigns_every_non_key_value(q.values, q.database[0]);
}

/// The primary key name of a table, when it has one.
pub open spec fn primary_key_of(t: TableView) -> Option<Seq<char>> {
    match first_index(t.columns, is_primary_key_pred()) {
        Some(i) => Some(t.columns[i].name@),
        None => None,
    }
}

/// The UPDATE statement: `UPDATE table SET` and the assignments separated by `, `
/// (`UPDATE OR ROLLBACK` on SQLite with transactions), then `WHERE pk = value`
/// with the value given for the primary key when the table has one, then `;`.
pub open spec fn update_sql(q: QueryBuilderView) -> Seq<char> {
    if q.database.len() == 0 {
        ";"@
    } else {
        let t = q.database[0];
        (if is_rollback(q.backend) { "UPDATE OR ROLLBACK "@ } else { "UPDATE "@ }) + t.name + " SET "@
            + join_seqs(update_items(q.values, t), ", "@) + match primary_key_of(t) {
            Some(pk) => " WHERE "@ + pk + " = "@ + value_text(q.values[index_of_name(q.values, pk).unwrap()].1),
            None => Seq::empty(),
        } + ";"@
    }
}

/// The UPDATE of a table with a primary key picks its row by that key: the
/// statement ends with ` WHERE key = value;`, where `key` is the table's first
/// primary key column and `value` the first value given under its name.
pub proof fn lemma_update_matches_primary_key(q: QueryBuilderView, k: int, i: int)
    requires
        q.database.len() > 0,
        0 <= k < q.database[0].columns.len(),
        q.database[0].columns[k].column_options.primary_key,
        forall|j: int| 0 <= j < k ==> !(#[trigger] q.database[0].columns[j]).column_options.primary_key,
        0 <= i < q.values.len(),
        q.values[i].0 == q.database[0].columns[k].name@,
        forall|j: int| 0 <= j < i ==> (#[trigger] q.values[j]).0 != q.database[0].columns[k].name@,
    ensures
        ({
            let sql = update_sql(q);
            let tail = " WHERE "@ + q.database[0].columns[k].name@ + " = "@ + value_text(q.values[i].1) + ";"@;
            sql.len() >= tail.len() && sql.subrange(sql.len() - tail.len(), sql.len() as int) == tail
        }),
{
    let t = q.database[0];
    let pk = t.columns[k].name@;
    assert forall|j: int| 0 <= j < k implies !is_primary_key_pred()(#[trigger] t.columns[j]) by {}
    lemma_first_index(t.columns, is_primary_key_pred(), k);
    assert forall|j: int| 0 <= j < i implies !name_is(pk)(#[trigger] q.values[j]) by {}
    lemma_first_index(q.values, name_is(pk), i);
    let head = (if is_rollback(q.backend) { "UPDATE OR ROLLBACK "@ } else { "UPDATE "@ }) + t.name + " SET "@
        + join_seqs(update_items(q.values, t), ", "@);
    let tail = " WHERE "@ + pk + " = "@ + value_text(q.values[i].1) + ";"@;
    assert(update_sql(q) =~= head + tail);
    let sql = update_sql(q);
    assert(sql.subrange(sql.len() - tail.len(), sql.len() as int) =~= tail);
}

/// With a table: there are values, each names a column, and the primary key has
/// a value when the table has one.
pub open spec fn update_ready(q: QueryBuilderView) -> bool {
    q.database.len() > 0 ==> {
        &&& q.values.len() > 0
        &&& values_resolve(q.database[0], q.values)
        &&& primary_key_of(q.database[0]) matches Some(pk) ==> index_of_name(q.values, pk) is Some
    }
}

/// One assignment.
fn assignment(column: &String, value: &Value) -> (res: String)
    ensures
        res@ == assignment_sql(column@, value@),
{
    let mut s = column.clone();
    push_str(&mut s, " = ");
    match value {
        Value::Identifier(_) | Value::Text(_) | Value::Blob(_) | Value::Json(_) => {
            push_str(&mut s, "?");
        },
        _ => {
            let v = value.to_sql_text();
            push_str(&mut s, v.as_str());
        },
    }
    s
}

impl QueryType {
    /// The UPDATE statement of a query.
    pub fn sql_update(&self, query: &QueryBuilder) -> (res: String)
        requires
            update_ready(query@),
        ensures
            res@ == update_sql(query@),
    {
        let mut full_query = String::new();
        if query.database.len() != 0 {
            let table = &query.database[0];
            assert(query@.database[0] == table@);
            if backend_is_rollback(query.backend) {
                push_str(&mut full_query, "UPDATE OR ROLLBACK ");
            } else {
                push_str(&mut full_query, "UPDATE ");
            }
            push_str(&mut full_query, table.name.as_str());
            push_str(&mut full_query, " SET ");
            let ghost t = table@;
            let ghost vals = query@.values;
            let mut columns: Vec<String> = Vec::new();
            let mut i: usize = 0;
            while i < query.values.values.len()
                invariant
                    i <= query.values.values.len(),
                    t == table@,
                    vals == query@.values,
                    values_resolve(t, vals),
                    string_views(columns@) == update_items(vals.take(i as int), t),
                decreases query.values.values.len() - i,
            {
                let nv = &query.values.values[i];
                assert(vals[i as int] == nv@);
                assert(vals.take((i + 1) as int).drop_last() =~= vals.take(i as int));
                assert(first_index(t.columns, named_pred(vals[i as int].0)) is Some);
                let column = table.find_column(nv.name.as_str()).unwrap();
                if !column.column_options.primary_key {
                    let ghost before = columns@;
                    columns.push(assignment(&column.name, &nv.value));
                    assert(string_views(columns@) =~= string_views(before).push(
                        assignment_sql(column.name@, nv.value@),
                    ));
                }
                i += 1;
            }
            assert(vals.take(vals.len() as int) =~= vals);
            let cs = join(&columns, ", ");
            push_str(&mut full_query, cs.as_str());
            if let Some(primary_key) = table.get_primary_key() {
                let value = query.values.get(&primary_key.name).unwrap();
                push_str(&mut full_query, " WHERE ");
                push_str(&mut full_query, primary_key.name.as_str());
                push_str(&mut full_query, " = ");
                let v = value.to_sql_text();
                push_str(&mut full_query, v.as_str());
            }
        }
        push_str(&mut full_query, ";");
        full_query
    }
}

} // verus!
