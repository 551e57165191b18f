//! COUNT statements.
use vstd::prelude::*;
use crate::text::{owned, push_str};
use crate::builder::table::TableExpr;
use crate::builder::{QueryBuilder, QueryBuilderView, QueryType};
use super::{push_where, where_part, where_ready};

verus! {

/// The COUNT statement: `SELECT COUNT(1)`, then `FROM` the table and its WHERE
/// clause when there is a table, then `;`.
pub open spec fn count_sql(q: QueryBuilderView) -> Seq<char> {
    if q.database.len() == 0 {
        "SELECT COUNT(1)"@ + ";"@
    } else {
        "SELECT COUNT(1)"@ + " "@ + "FROM "@ + q.database[0].name + where_part(q) + ";"@
    }
}

impl QueryType {
    /// The COUNT statement of a query.
    pub fn sql_count(&self, query: &QueryBuilder) -> (res: String)
        requires
            where_ready(query@),
        ensures
            res@ == count_sql(query@),
    {
        let mut full_query = owned("SELECT COUNT(1)");
        proof { reveal_strlit("SELECT COUNT(1)"); }
        if query.database.len() != 0 {
            let table = &query.database[0];
            assert(query@.database[0] == table@);
            let table_expr = TableExpr::new(table.name.as_str());
            table_expr.to_sql_stream(&mut full_query);
            push_where(&mut full_query, query);
        }
        push_str(&mut full_query, ";");
        full_query
    }
}

} // verus!
