//! A SQL query builder whose generated statements are specified and proved.
use vstd::prelude::*;
use crate::backends::QueryBackend;
use crate::builder::columns::{Column, Columns, column_sql, columns_names_sql};
use crate::builder::columntypes::{ColumnOptions, options_sql};
use crate::builder::conditions::{
    QueryCondition, WhereClause, WhereCondition, condition_sql, where_condition_sql, where_sql,
};
use crate::builder::ordering::{CaseExpression, OrderClause, case_sql, order_clause_sql};
use crate::builder::queries::alter::{AlterQuery, alter_sql};
use crate::builder::queries::transaction::{TransactionQuery, transaction_sql};
use crate::builder::table::{TableExpr, table_expr_sql};
use crate::query::Query;
use crate::values::datetime::UtcDateTime;
use crate::values::time::{UnixTime, time_value};
use crate::values::value::{Value, ValueView};
use crate::values::values::ValueBindingMode;

pub mod backends;
pub mod builder;
pub mod derive;
pub mod error;
pub mod queries;
pub mod query;
pub mod sql;
pub mod text;
pub mod values;

verus! {

broadcast use text::lemma_first_index_found;

/// Types that can be written as SQL on their own.
pub trait ToSql {
    /// The SQL of the value.
    spec fn sql_text(&self) -> Seq<char>;

    /// Convert to SQL string, no other input
    fn sql(&self) -> (res: String)
        ensures
            res@ == self.sql_text(),
    ;
}

/// Types that can be stored as a value.
pub trait ToValue {
    /// The value stored.
    spec fn value_of(&self) -> ValueView;

    /// Convert to Value
    fn to_value(&self) -> (res: Value)
        ensures
            res@ == self.value_of(),
    ;
}

impl ToSql for Column {
    open spec fn sql_text(&self) -> Seq<char> {
        column_sql(*self)
    }

    fn sql(&self) -> (res: String) {
        Column::sql(self)
    }
}

impl ToSql for Columns {
    open spec fn sql_text(&self) -> Seq<char> {
        columns_names_sql(self@)
    }

    fn sql(&self) -> (res: String) {
        Columns::sql(self)
    }
}

impl ToSql for ColumnOptions {
    open spec fn sql_text(&self) -> Seq<char> {
        options_sql(*self, QueryBackend::Unknown)
    }

    fn sql(&self) -> (res: String) {
        ColumnOptions::sql(self)
    }
}

impl ToSql for QueryCondition {
    open spec fn sql_text(&self) -> Seq<char> {
        condition_sql(*self)
    }

    fn sql(&self) -> (res: String) {
        QueryCondition::sql(self)
    }
}

impl ToSql for WhereCondition {
    open spec fn sql_text(&self) -> Seq<char> {
        where_condition_sql(*self)
    }

    fn sql(&self) -> (res: String) {
        WhereCondition::sql(self)
    }
}

impl ToSql for WhereClause {
    open spec fn sql_text(&self) -> Seq<char> {
        where_sql(self@, Seq::empty(), ValueBindingMode::Placeholder)
    }

    fn sql(&self) -> (res: String) {
        WhereClause::sql(self)
    }
}

impl ToSql for CaseExpression {
    open spec fn sql_text(&self) -> Seq<char> {
        case_sql(self.column@, self.cases@)
    }

    fn sql(&self) -> (res: String) {
        CaseExpression::sql(self)
    }
}

impl ToSql for OrderClause {
    open spec fn sql_text(&self) -> Seq<char> {
        order_clause_sql(self.columns@)
    }

    fn sql(&self) -> (res: String) {
        OrderClause::sql(self)
    }
}

impl ToSql for TableExpr {
    open spec fn sql_text(&self) -> Seq<char> {
        table_expr_sql(*self)
    }

    fn sql(&self) -> (res: String) {
        TableExpr::sql(self)
    }
}

impl ToSql for AlterQuery {
    open spec fn sql_text(&self) -> Seq<char> {
        alter_sql(self@)
    }

    fn sql(&self) -> (res: String) {
        AlterQuery::sql(self)
    }
}

impl ToSql for TransactionQuery {
    open spec fn sql_text(&self) -> Seq<char> {
        transaction_sql(self.queries@, self.rollback)
    }

    fn sql(&self) -> (res: String) {
        TransactionQuery::sql(self)
    }
}

impl ToSql for Query {
    open spec fn sql_text(&self) -> Seq<char> {
        self.query@
    }

    fn sql(&self) -> (res: String) {
        Query::sql(self)
    }
}

impl ToValue for UtcDateTime {
    open spec fn value_of(&self) -> ValueView {
        ValueView::Datetime(self@.0 as u64)
    }

    fn to_value(&self) -> (res: Value) {
        UtcDateTime::to_value(self)
    }
}

impl ToValue for UnixTime {
    open spec fn value_of(&self) -> ValueView {
        time_value(*self)
    }

    fn to_value(&self) -> (res: Value) {
        crate::values::time::system_time_to_value(self)
    }
}

} // verus!
