//! Built queries.
use vstd::prelude::*;
use vstd::std_specs::convert::FromSpecImpl;
use crate::builder::QueryBuilder;
use crate::builder::QueryType;
use crate::builder::queries::transaction::TransactionQuery;
use crate::text::push_str;
use crate::values::value::ValueView;
use crate::values::values::{ValueBindingMode, Values};

pub mod batch;
pub mod columns;
pub mod columntypes;

pub use batch::BatchQueries;

verus! {

/// A built query: its SQL and the values that go with it.
#[derive(Debug, Clone, PartialEq)]
pub struct Query {
    /// The SQL query string
    pub query: String,
    /// The type of query
    pub query_type: QueryType,
    /// Values are data for inserting
    pub values: Values,
    /// Parameters are data for binding
    pub params: Values,
}

impl Query {
    /// Start building a select query
    pub fn select() -> (res: QueryBuilder)
        ensures
            res@ == crate::builder::fresh(QueryType::Select),
    {
        QueryBuilder::select()
    }

    /// CREATE table Query
    pub fn create() -> (res: QueryBuilder)
        ensures
            res@ == crate::builder::fresh(QueryType::Create),
    {
        QueryBuilder::create()
    }

    /// INSERT Query
    pub fn insert() -> (res: QueryBuilder)
        ensures
            res@ == crate::builder::fresh(QueryType::Insert),
    {
        QueryBuilder::insert()
    }

    /// UPDATE Query
    pub fn update() -> (res: QueryBuilder)
        ensures
            res@ == crate::builder::fresh(QueryType::Update),
    {
        QueryBuilder::update()
    }

    /// DELETE Query
    pub fn delete() -> (res: QueryBuilder)
        ensures
            res@ == crate::builder::fresh(QueryType::Delete),
    {
        QueryBuilder::delete()
    }

    /// Transaction Query
    pub fn transaction() -> (res: TransactionQuery)
        ensures
            res.queries@ == Seq::<Query>::empty(),
            res.rollback,
    {
        TransactionQuery::new()
    }

    /// Get the SQL query string
    pub fn sql(&self) -> (res: String)
        ensures
            res@ == self.query@,
    {
        self.query.clone()
    }

    /// Get Query Type
    pub fn query_type(&self) -> (res: &QueryType)
        ensures
            *res == self.query_type,
    {
        &self.query_type
    }

    /// Get the parameters for the query
    pub fn parameters(&self) -> (res: &Values)
        ensures
            *res == self.params,
    {
        &self.params
    }

    /// Push a string onto the query
    pub fn push(&mut self, value: String)
        ensures
            final(self).query@ == old(self).query@ + value@,
            final(self).query_type == old(self).query_type,
            final(self).values == old(self).values,
            final(self).params == old(self).params,
    {
        push_str(&mut self.query, value.as_str());
    }

    /// A query made of the given SQL, of unknown type and without values.
    pub fn from_sql(query: String) -> (res: Self)
        ensures
            res.query == query,
            res.query_type == QueryType::Unknown,
            res.values@ == Seq::<(Seq<char>, ValueView)>::empty(),
            res.params@ == Seq::<(Seq<char>, ValueView)>::empty(),
            res.values.binding_mode == ValueBindingMode::Placeholder,
            res.params.binding_mode == ValueBindingMode::Placeholder,
    {
        Query { query, query_type: QueryType::Unknown, values: Values::new(), params: Values::new() }
    }

    /// A copy of the query.
    pub fn copy(&self) -> (res: Self)
        ensures
            res.query == self.query,
            res.query_type == self.query_type,
            res.values@ == self.values@,
            res.params@ == self.params@,
            res.values.binding_mode == self.values.binding_mode,
            res.params.binding_mode == self.params.binding_mode,
    {
        Query {
            query: self.query.clone(),
            query_type: self.query_type,
            values: self.values.copy(),
            params: self.params.copy(),
        }
    }
}

impl Default for Query {
    fn default() -> (res: Self)
        ensures
            res.query@ == Seq::<char>::empty(),
            res.query_type == QueryType::Unknown,
            res.values@ == Seq::<(Seq<char>, ValueView)>::empty(),
            res.params@ == Seq::<(Seq<char>, ValueView)>::empty(),
    {
        Query::from_sql(String::new())
    }
}

impl From<String> for Query {
    fn from(value: String) -> (res: Self)
        ensures
            res.query == value,
            res.query_type == QueryType::Unknown,
            res.values@ == Seq::<(Seq<char>, ValueView)>::empty(),
            res.params@ == Seq::<(Seq<char>, ValueView)>::empty(),
    {
        Query::from_sql(value)
    }
}

/// A query holds vectors, which a specification function cannot build, so the
/// result is stated by the `ensures` of `from` above rather than by `from_spec`.
impl FromSpecImpl<String> for Query {
    open spec fn obeys_from_spec() -> bool {
        false
    }

    open spec fn from_spec(value: String) -> Query {
        arbitrary()
    }
}

} // verus!
