//! The statements generated for each kind of query.
use vstd::prelude::*;
use crate::error::Error;
use crate::query::Query;
use crate::text::{join, join_seqs, owned, push_str};
use crate::values::values::ValueBindingMode;
use super::conditions::{all_bound, where_sql};
use super::{QueryBuilder, QueryBuilderView, QueryType};
use self::count::count_sql;
use self::create::{create_ready, create_sql};
use self::delete::delete_sql;
use self::insert::{insert_ready, insert_sql};
use self::select::{select_ready, select_sql};
use self::update::{update_ready, update_sql};

pub mod alter;
pub mod count;
pub mod create;
pub mod delete;
pub mod insert;
pub mod select;
pub mod transaction;
pub mod update;

verus! {

/// The WHERE clause of the query, preceded by a space, or nothing without
/// entries.
pub open spec fn where_part(q: QueryBuilderView) -> Seq<char> {
    if q.where_clause.len() > 0 {
        " "@ + where_sql(q.where_clause, q.values, q.binding_mode)
    } else {
        Seq::empty()
    }
}

/// Numeric markers exist for every WHERE entry.
pub open spec fn where_ready(q: QueryBuilderView) -> bool {
    q.binding_mode == ValueBindingMode::Numeric ==> all_bound(q.where_clause, q.values)
}

/// Appends the WHERE clause of the query, preceded by a space, when it has entries.
pub fn push_where(stream: &mut String, query: &QueryBuilder)
    requires
        where_ready(query@),
    ensures
        final(stream)@ == old(stream)@ + where_part(query@),
{
    if query.where_clause.conditions.len() != 0 {
        push_str(stream, " ");
        let w = query.where_clause.to_sql_with(&query.values);
        push_str(stream, w.as_str());
    }
}

/// What a statement of type `t` needs of the builder to be written out.
pub open spec fn statement_ready(t: QueryType, q: QueryBuilderView) -> bool {
    match t {
        QueryType::Create => create_ready(q),
        QueryType::Select => select_ready(q),
        QueryType::Count | QueryType::Delete => where_ready(q),
        QueryType::Insert => insert_ready(q),
        QueryType::Update => update_ready(q),
        _ => true,
    }
}

/// The statement of type `t` for the builder, for the types the builder writes.
pub open spec fn statement_sql(t: QueryType, q: QueryBuilderView) -> Option<Seq<char>> {
    match t {
        QueryType::Create => Some(create_sql(q)),
        QueryType::Select => Some(select_sql(q)),
        QueryType::Count => Some(count_sql(q)),
        QueryType::Insert => Some(insert_sql(q)),
        QueryType::Update => Some(update_sql(q)),
        QueryType::Delete => Some(delete_sql(q)),
        _ => None,
    }
}

/// The error of a query type the builder does not write.
pub open spec fn is_unknown_type_error(e: Error) -> bool {
    e matches Error::QueryBuilderError { error, location } && error@ == "Unknown query type"@
        && location@ == "to_sql"@
}

/// The error of a builder that recorded errors: all of them, joined by `, `.
pub open spec fn is_recorded_errors(e: Error, errors: Seq<Seq<char>>) -> bool {
    e matches Error::QueryBuilderError { error, location } && error@ == join_seqs(errors, ", "@)
        && location@ == "build"@
}

impl QueryType {
    /// The statement of this type for the builder.
    pub fn to_sql(&self, query: &QueryBuilder) -> (res: Result<String, Error>)
        requires
            statement_ready(*self, query@),
        ensures
            match statement_sql(*self, query@) {
                Some(s) => res matches Ok(r) && r@ == s,
                None => res matches Err(e) && is_unknown_type_error(e),
            },
    {
        match self {
            QueryType::Create => Ok(self.sql_create(query)),
            QueryType::Select => Ok(self.sql_select(query)),
            QueryType::Count => Ok(self.sql_count(query)),
            QueryType::Insert => Ok(self.sql_insert(query)),
            QueryType::Update => Ok(self.sql_update(query)),
            QueryType::Delete => Ok(self.sql_delete(query)),
            _ => Err(Error::query_builder("Unknown query type", "to_sql")),
        }
    }
}

impl QueryBuilder {
    /// Build the query.
    ///
    /// A builder that recorded errors fails with all of them; otherwise the query
    /// holds the statement of the builder's type, and the builder's values both as
    /// values and as parameters.
    pub fn build(&self) -> (res: Result<Query, Error>)
        requires
            self@.errors.len() == 0 ==> statement_ready(self.query_type, self@),
        ensures
            self@.errors.len() > 0 ==> (res matches Err(e) && is_recorded_errors(e, self@.errors)),
            self@.errors.len() == 0 ==> match statement_sql(self.query_type, self@) {
                Some(s) => (res matches Ok(q) && {
                    &&& q.query@ == s
                    &&& q.query_type == self.query_type
                    &&& q.values@ == self@.values
                    &&& q.params@ == self@.values
                    &&& q.values.binding_mode == self.values.binding_mode
                    &&& q.params.binding_mode == self.values.binding_mode
                }),
                None => res matches Err(e) && is_unknown_type_error(e),
            },
    {
        if self.errors.len() != 0 {
            let message = join(&self.errors, ", ");
            return Err(Error::QueryBuilderError { error: message, location: owned("build") });
        }
        let sql = match self.query_type.to_sql(self) {
            Ok(s) => s,
            Err(e) => {
                return Err(e);
            },
        };
        Ok(Query {
            query: sql,
            query_type: self.query_type,
            values: self.values.copy(),
            params: self.values.copy(),
        })
    }
}

} // verus!
