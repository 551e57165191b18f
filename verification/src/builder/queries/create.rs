//! CREATE TABLE statements.
use vstd::prelude::*;
use crate::text::{owned, push_str};
use crate::builder::columns::{Column, columns_list_sql, foreign_key_target, foreign_keys};
use crate::builder::joins::joins_well_formed;
use crate::builder::{QueryBuilder, QueryBuilderView, QueryType};

verus! {

/// One `FOREIGN KEY (column) REFERENCES table (column)` constraint.
pub open spec fn foreign_key_sql(c: Column) -> Seq<char> {
    "FOREIGN KEY ("@ + c.name@ + ") REFERENCES "@ + foreign_key_target(c).unwrap().0 + " ("@
        + foreign_key_target(c).unwrap().1 + ")"@
}

/// The constraints, written one after the other.
pub open spec fn foreign_keys_sql(fks: Seq<Column>) -> Seq<char>
    decreases fks.len(),
{
    if fks.len() == 0 {
        Seq::empty()
    } else {
        foreign_keys_sql(fks.drop_last()) + foreign_key_sql(fks.last())
    }
}

/// The CREATE statement: `CREATE TABLE IF NOT EXISTS name (` and the column
/// definitions; when there are foreign keys, `) ` and their constraints; then `)`.
/// A `;` ends the statement, which holds only that without a table.
pub open spec fn create_sql(q: QueryBuilderView) -> Seq<char> {
    if q.database.len() == 0 {
        ";"@
    } else {
        let t = q.database[0];
        let fks = foreign_keys(t.columns);
        "CREATE TABLE IF NOT EXISTS "@ + t.name + " ("@ + columns_list_sql(t.columns, q) + (if fks.len()
            > 0 {
            ") "@ + foreign_keys_sql(fks)
        } else {
            Seq::empty()
        }) + ")"@ + ";"@
    }
}

/// The joins name their tables, and every foreign key names a table and column.
pub open spec fn create_ready(q: QueryBuilderView) -> bool {
    &&& joins_well_formed(q.joins)
    &&& q.database.len() > 0 ==> forall|i: int|
        0 <= i < foreign_keys(q.database[0].columns).len() ==> foreign_key_target(
            #[trigger] foreign_keys(q.database[0].columns)[i],
        ) is Some
}

impl QueryType {
    /// The CREATE TABLE statement of a query.
    pub fn sql_create(&self, query: &QueryBuilder) -> (res: String)
        requires
            create_ready(query@),
        ensures
            res@ == create_sql(query@),
    {
        let mut full_query = String::new();
        if query.database.len() != 0 {
            let table = &query.database[0];
            assert(query@.database[0] == table@);
            push_str(&mut full_query, "CREATE TABLE IF NOT EXISTS ");
            push_str(&mut full_query, table.name.as_str());
            push_str(&mut full_query, " (");
            let cols = table.columns.to_sql(query).unwrap();
            push_str(&mut full_query, cols.as_str());
            let fkeys = table.columns.get_foreign_keys();
            let ghost fks = foreign_keys(table.columns@);
            assert(fkeys@.map_values(|c: &Column| *c) == fks);
            if fkeys.len() != 0 {
                push_str(&mut full_query, ") ");
                let ghost prefix = full_query@;
                let mut i: usize = 0;
                while i < fkeys.len()
                    invariant
                        i <= fkeys.len(),
                        fkeys@.map_values(|c: &Column| *c) == fks,
                        forall|k: int| 0 <= k < fks.len() ==> foreign_key_target(#[trigger] fks[k]) is Some,
                        full_query@ == prefix + foreign_keys_sql(fks.take(i as int)),
                    decreases fkeys.len() - i,
                {
                    let fk = fkeys[i];
                    assert(fks[i as int] == *fk);
                    assert(fks.take((i + 1) as int).drop_last() =~= fks.take(i as int));
                    let (ctable, ccolumn) = fk.get_foreign_key().unwrap();
                    push_str(&mut full_query, "FOREIGN KEY (");
                    push_str(&mut full_query, fk.name.as_str());
                    push_str(&mut full_query, ") REFERENCES ");
                    push_str(&mut full_query, ctable);
                    push_str(&mut full_query, " (");
                    push_str(&mut full_query, ccolumn);
                    push_str(&mut full_query, ")");
                    i += 1;
                }
                assert(fks.take(fks.len() as int) =~= fks);
            }
            push_str(&mut full_query, ")");
        }
        push_str(&mut full_query, ";");
        full_query
    }
}

} // verus!
