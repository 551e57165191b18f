//! INSERT statements.
use vstd::prelude::*;
use crate::backends::{QueryBackend, SqliteBackendOptions};
use crate::text::{first_index, join, join_seqs, owned, push_str, string_views};
use crate::values::value::ValueView;
use crate::values::values::{ValueBindingMode, index_of_name, name_is};
use crate::builder::columns::{Column, named_pred};
use crate::builder::conditions::binding_sql;
use crate::builder::table::TableView;
use crate::builder::{QueryBuilder, QueryBuilderView, QueryType};

verus! {

/// Whether the backend is SQLite with transactions, whose statements roll back
/// on conflict.
pub open spec fn is_rollback(backend: QueryBackend) -> bool {
    backend matches QueryBackend::Sqlite { options } && options.transactions
}

/// The column of `t` a value is stored in: the first named or aliased like it.
pub open spec fn value_column(t: TableView, name: Seq<char>) -> Column {
    t.columns[first_index(t.columns, named_pred(name)).unwrap()]
}

/// Every value names a column of the table.
pub open spec fn values_resolve(t: TableView, vals: Seq<(Seq<char>, ValueView)>) -> bool {
    forall|i: int| 0 <= i < vals.len() ==> first_index(t.columns, named_pred(#[trigger] vals[i].0)) is Some
}

/// The (column, marker) pairs of an INSERT: one per value, in order, except for
/// values of auto incrementing columns.
pub open spec fn insert_items(vals: Seq<(Seq<char>, ValueView)>, t: TableView, q: QueryBuilderView) -> Seq<(Seq<char>, Seq<char>)>
    decreases vals.len(),
{
    if vals.len() == 0 {
        Seq::empty()
    } else {
        let prev = insert_items(vals.drop_last(), t, q);
        let c = value_column(t, vals.last().0);
        if c.column_options.auto_increment {
            prev
        } else {
            prev.push((c.name@, binding_sql(vals.last().0, q.values, q.binding_mode)))
        }
    }
}

/// The INSERT statement: `INSERT INTO table (columns) VALUES (markers);`, with
/// `OR ROLLBACK` after `INSERT` on SQLite with transactions; without a table it is
/// the text `No table specified`.
pub open spec fn insert_sql(q: QueryBuilderView) -> Seq<char> {
    if q.database.len() == 0 {
        "No table specified"@
    } else {
        let t = q.database[0];
        let items = insert_items(q.values, t, q);
        "INSERT "@ + (if is_rollback(q.backend) { "OR ROLLBACK INTO "@ } else { "INTO "@ }) + t.name
            + " ("@ + join_seqs(items.map_values(|it: (Seq<char>, Seq<char>)| it.0), ", "@)
            + ") VALUES ("@ + join_seqs(items.map_values(|it: (Seq<char>, Seq<char>)| it.1), ", "@)
            + ")"@ + ";"@
    }
}

/// The values an INSERT lists: those whose column does not auto increment.
pub open spec fn inserted(t: TableView) -> spec_fn((Seq<char>, ValueView)) -> bool {
    |v: (Seq<char>, ValueView)| !value_column(t, v.0).column_options.auto_increment
}

/// The INSERT lists, in the order of the values, the column of every value whose
/// column does not auto increment, each with the marker of its value, and no
/// other column.
pub proof fn lemma_insert_lists_every_set_column(vals: Seq<(Seq<char>, ValueView)>, t: TableView, q: QueryBuilderView)
    ensures
        insert_items(vals, t, q) == vals.filter(inserted(t)).map_values(
            |v: (Seq<char>, ValueView)| (value_column(t, v.0).name@, binding_sql(v.0, q.values, q.binding_mode)),
        ),
    decreases vals.len(),
{
    reveal_with_fuel(Seq::filter, 1);
    if vals.len() > 0 {
        lemma_insert_lists_every_set_column(vals.drop_last(), t, q);
        let f = |v: (Seq<char>, ValueView)| (value_column(t, v.0).name@, binding_sql(v.0, q.values, q.binding_mode));
        let prev = vals.drop_last().filter(inserted(t));
        if inserted(t)(vals.last()) {
            assert(prev.push(vals.last()).map_values(f) =~= prev.map_values(f).push(f(vals.last())));
        }
    }
}

/// The INSERT statement of a query with a table names the table and lists the
/// columns of the values whose column does not auto increment, in order, with
/// their markers in the same order.
pub proof fn lemma_insert_statement(q: QueryBuilderView)
    requires
        q.database.len() > 0,
    ensures
        insert_sql(q) == "INSERT "@ + (if is_rollback(q.backend) { "OR ROLLBACK INTO "@ } else { "INTO "@ })
            + q.database[0].name + " ("@ + join_seqs(
            q.values.filter(inserted(q.database[0])).map_values(
                |v: (Seq<char>, ValueView)| value_column(q.database[0], v.0).name@,
            ),
            ", "@,
        ) + ") VALUES ("@ + join_seqs(
            q.values.filter(inserted(q.database[0])).map_values(
                |v: (Seq<char>, ValueView)| binding_sql(v.0, q.values, q.binding_mode),
            ),
            ", "@,
        ) + ");"@,
{
    let t = q.database[0];
    lemma_insert_lists_every_set_column(q.values, t, q);
    let items = insert_items(q.values, t, q);
    let kept = q.values.filter(inserted(t));
    assert(items.map_values(|it: (Seq<char>, Seq<char>)| it.0) =~= kept.map_values(
        |v: (Seq<char>, ValueView)| value_column(t, v.0).name@,
    ));
    assert(items.map_values(|it: (Seq<char>, Seq<char>)| it.1) =~= kept.map_values(
        |v: (Seq<char>, ValueView)| binding_sql(v.0, q.values, q.binding_mode),
    ));
    reveal_strlit(")");
    reveal_strlit(";");
    reveal_strlit(");");
    assert(")"@ + ";"@ =~= ");"@);
    assert(insert_sql(q) =~= "INSERT "@ + (if is_rollback(q.backend) { "OR ROLLBACK INTO "@ } else { "INTO "@ })
            + t.name + " ("@ + join_seqs(kept.map_values(|v: (Seq<char>, ValueView)| value_column(t, v.0).name@), ", "@)
            + ") VALUES ("@ + join_seqs(kept.map_values(|v: (Seq<char>, ValueView)| binding_sql(v.0, q.values, q.binding_mode)), ", "@)
            + ")"@ + ";"@);
}

/// Every value names a column of the table of the query.
pub open spec fn insert_ready(q: QueryBuilderView) -> bool {
    q.database.len() > 0 ==> values_resolve(q.database[0], q.values)
}

/// Whether the backend rolls back on conflict.
pub fn backend_is_rollback(backend: QueryBackend) -> (res: bool)
    ensures
        res == is_rollback(backend),
{
    match backend {
        QueryBackend::Sqlite { options } => options.transactions,
        _ => false,
    }
}

impl QueryType {
    /// The INSERT statement of a query.
    pub fn sql_insert(&self, query: &QueryBuilder) -> (res: String)
        requires
            insert_ready(query@),
        ensures
            res@ == insert_sql(query@),
    {
        if query.database.len() == 0 {
            return owned("No table specified");
        }
        let table = &query.database[0];
        assert(query@.database[0] == table@);
        let mut full_query = owned("INSERT ");
        if backend_is_rollback(query.backend) {
            push_str(&mut full_query, "OR ROLLBACK INTO ");
        } else {
            push_str(&mut full_query, "INTO ");
        }
        push_str(&mut full_query, table.name.as_str());
        let ghost t = table@;
        let ghost vals = query@.values;
        let mut columns: Vec<String> = Vec::new();
        let mut markers: Vec<String> = Vec::new();
        let mut i: usize = 0;
        while i < query.values.values.len()
            invariant
                i <= query.values.values.len(),
                t == table@,
                t == query@.database[0],
                vals == query@.values,
                values_resolve(t, vals),
                columns@.len() == markers@.len(),
                string_views(columns@) == insert_items(vals.take(i as int), t, query@).map_values(
                    |it: (Seq<char>, Seq<char>)| it.0,
                ),
                string_views(markers@) == insert_items(vals.take(i as int), t, query@).map_values(
                    |it: (Seq<char>, Seq<char>)| it.1,
                ),
            decreases query.values.values.len() - i,
        {
            let nv = &query.values.values[i];
            assert(vals[i as int] == nv@);
            assert(vals.take((i + 1) as int).drop_last() =~= vals.take(i as int));
            assert(first_index(t.columns, named_pred(vals[i as int].0)) is Some);
            let column = table.find_column(nv.name.as_str()).unwrap();
            if !column.column_options.auto_increment {
                let ghost before_c = columns@;
                let ghost before_m = markers@;
                columns.push(column.name.clone());
                proof {
                    crate::text::lemma_first_index_found(vals, name_is(nv.name@));
                    assert(name_is(nv.name@)(vals[i as int]));
                }
                let marker = marker_for(&nv.name, query);
                markers.push(marker);
                assert(string_views(columns@) =~= string_views(before_c).push(column.name@));
                assert(string_views(markers@) =~= string_views(before_m).push(
                    binding_sql(nv.name@, vals, query@.binding_mode),
                ));
            }
            i += 1;
        }
        assert(vals.take(vals.len() as int) =~= vals);
        push_str(&mut full_query, " (");
        let cs = join(&columns, ", ");
        push_str(&mut full_query, cs.as_str());
        push_str(&mut full_query, ") VALUES (");
        let ms = join(&markers, ", ");
        push_str(&mut full_query, ms.as_str());
        push_str(&mut full_query, ")");
        push_str(&mut full_query, ";");
        full_query
    }
}

/// The parameter marker of a column, for the binding mode of the query's values.
pub fn marker_for(column: &String, query: &QueryBuilder) -> (res: String)
    requires
        query.values.binding_mode == ValueBindingMode::Numeric ==> index_of_name(query@.values, column@) is Some,
    ensures
        res@ == binding_sql(column@, query@.values, query@.binding_mode),
{
    let mut s = String::new();
    crate::builder::conditions::push_binding(&mut s, column, &query.values);
    s
}

} // verus!
