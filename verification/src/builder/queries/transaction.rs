//! Transactions: a batch of queries run together.
use vstd::prelude::*;
use crate::builder::QueryType;
use crate::error::Error;
use crate::query::{BatchQueries, Query};
use crate::text::{owned, push_str};
use crate::values::value::ValueView;
use crate::values::values::{ValueBindingMode, Values};

verus! {

/// Transaction Query
#[derive(Debug, Clone, PartialEq)]
pub struct TransactionQuery {
    /// Batch of queries
    pub queries: BatchQueries,
    /// Rollback
    pub rollback: bool,
}

/// The statements of the batch, each followed by a newline.
pub open spec fn batch_sql(queries: Seq<Query>) -> Seq<char>
    decreases queries.len(),
{
    if queries.len() == 0 {
        Seq::empty()
    } else {
        batch_sql(queries.drop_last()) + queries.last().query@ + "\n"@
    }
}

/// The transaction: `BEGIN TRANSACTION;`, a blank line, the statements, then
/// `ON CONFLICT ROLLBACK;` on its own line after a blank one when rolling back, and
/// `COMMIT;` on the last line.
pub open spec fn transaction_sql(queries: Seq<Query>, rollback: bool) -> Seq<char> {
    "BEGIN TRANSACTION;\n\n"@ + batch_sql(queries) + (if rollback {
        "\nON CONFLICT ROLLBACK;"@
    } else {
        Seq::empty()
    }) + "\nCOMMIT;"@
}

impl TransactionQuery {
    /// Create a new transaction query; it rolls back on conflict
    pub fn new() -> (res: TransactionQuery)
        ensures
            res.queries@ == Seq::<Query>::empty(),
            res.rollback,
    {
        TransactionQuery { queries: BatchQueries::new(), rollback: true }
    }

    /// Set queries, replaces all queries
    pub fn queries(&mut self, queries: BatchQueries) -> (ret: &mut Self)
        ensures
            ret.queries == queries,
            ret.rollback == old(self).rollback,
            *final(self) == *final(ret),
    {
        self.queries = queries;
        self
    }

    /// Add Query
    pub fn query(&mut self, query: Query) -> (ret: &mut Self)
        ensures
            ret.queries@ == old(self).queries@.push(query),
            ret.rollback == old(self).rollback,
            *final(self) == *final(ret),
    {
        self.queries.push(query);
        self
    }

    /// Enable / Disable rollback transaction
    pub fn rollback(&mut self, rollback: bool) -> (ret: &mut Self)
        ensures
            ret.queries == old(self).queries,
            ret.rollback == rollback,
            *final(self) == *final(ret),
    {
        self.rollback = rollback;
        self
    }

    /// The transaction as SQL.
    pub fn sql(&self) -> (res: String)
        ensures
            res@ == transaction_sql(self.queries@, self.rollback),
    {
        let mut stream = owned("BEGIN TRANSACTION;\n\n");
        let ghost start = stream@;
        let mut i: usize = 0;
        while i < self.queries.queries.len()
            invariant
                i <= self.queries.queries.len(),
                start == "BEGIN TRANSACTION;\n\n"@,
                stream@ == start + batch_sql(self.queries@.take(i as int)),
            decreases self.queries.queries.len() - i,
        {
            assert(self.queries@.take((i + 1) as int).drop_last() =~= self.queries@.take(i as int));
            push_str(&mut stream, self.queries.queries[i].query.as_str());
            push_str(&mut stream, "\n");
            i += 1;
        }
        assert(self.queries@.take(self.queries@.len() as int) =~= self.queries@);
        if self.rollback {
            push_str(&mut stream, "\nON CONFLICT ROLLBACK;");
        }
        push_str(&mut stream, "\nCOMMIT;");
        stream
    }

    /// Build transaction
    pub fn build(&self) -> (res: Result<Query, Error>)
        ensures
            res matches Ok(q) && q.query@ == transaction_sql(self.queries@, self.rollback)
                && q.query_type == QueryType::Transaction && q.values@ == Seq::<
                (Seq<char>, ValueView),
            >::empty() && q.params@ == Seq::<(Seq<char>, ValueView)>::empty()
                && q.values.binding_mode == ValueBindingMode::Placeholder
                && q.params.binding_mode == ValueBindingMode::Placeholder,
    {
        Ok(Query { query: self.sql(), query_type: QueryType::Transaction, values: Values::new(), params: Values::new() })
    }
}

impl Default for TransactionQuery {
    fn default() -> (res: Self)
        ensures
            res.queries@ == Seq::<Query>::empty(),
            res.rollback,
    {
        TransactionQuery::new()
    }
}

} // verus!
