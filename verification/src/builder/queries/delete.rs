//! DELETE statements.
//!
//! Delete queries are only supported for tables with a primary key.
use vstd::prelude::*;
use crate::text::{owned, push_str};
use crate::builder::table::TableExpr;
use crate::builder::{QueryBuilder, QueryBuilderView, QueryType};
use super::{push_where, where_part, where_ready};

verus! {

/// The DELETE statement: `DELETE FROM` the table and its WHERE clause when there
/// is a table, then `;`.
pub open spec fn delete_sql(q: QueryBuilderView) -> Seq<char> {
    if q.database.len() == 0 {
        ";"@
    } else {
        "DELETE "@ + "FROM "@ + q.database[0].name + where_part(q) + ";"@
    }
}

impl QueryType {
    /// The DELETE statement of a query.
    pub fn sql_delete(&self, query: &QueryBuilder) -> (res: String)
        requires
            where_ready(query@),
        ensures
            res@ == delete_sql(query@),
    {
        let mut full_query = String::new();
        if query.database.len() != 0 {
            let table = &query.database[0];
            assert(query@.database[0] == table@);
            push_str(&mut full_query, "DELETE ");
            proof { reveal_strlit("DELETE "); }
            let table_expr = TableExpr::new(table.name.as_str());
            table_expr.to_sql_stream(&mut full_query);
            push_where(&mut full_query, query);
        }
        push_str(&mut full_query, ";");
        full_query
    }
}

} // verus!
