use geekorm_sql::builder::columns::{Column, Columns};
use geekorm_sql::builder::columntypes::{ColumnOptions, ColumnType};
use geekorm_sql::builder::ordering::{CaseExpression, OrderClause, QueryOrder};
use geekorm_sql::builder::table::Table;
use geekorm_sql::builder::QueryBuilder;
use geekorm_sql::values::value::Value;
use geekorm_sql::values::values::Values;

fn table() -> Table {
    Table::new(
        "Test",
        Columns::new(vec![
            Column::from(("id".to_string(), ColumnType::Integer, ColumnOptions::primary_key())),
            Column::from(("name".to_string(), ColumnType::Text)),
            Column::from(("role".to_string(), ColumnType::Text)),
            Column::from(("email".to_string(), ColumnType::Text)),
        ]),
    )
}

fn cases() -> Values {
    let mut cases = Values::new();
    cases.push("Admin", Value::from(1));
    cases.push("Mod", Value::from(2));
    cases.push("User", Value::from(3));
    cases
}

#[test]
fn test_order_clause() {
    let mut order_clause = OrderClause::default();
    order_clause.push("name".to_string(), QueryOrder::Asc);
    order_clause.push("email".to_string(), QueryOrder::Desc);

    let sql = order_clause.sql();

    assert_eq!(sql, "ORDER BY name ASC, email DESC");
}

#[test]
fn test_order_clause_nulls() {
    let mut order_clause = OrderClause::default();
    order_clause.push("name".to_string(), QueryOrder::NullsFirst);

    let sql = order_clause.sql();
    assert_eq!(sql, "ORDER BY name NULLS FIRST");
}

#[test]
fn test_case_expr() {
    let case = CaseExpression::new("role".to_string(), cases());
    let sql = case.sql();

    assert_eq!(sql, "CASE role WHEN 'Admin' THEN 1 WHEN 'Mod' THEN 2 WHEN 'User' THEN 3 END");
}

#[test]
fn test_order_clause_case() {
    let table = table();
    let case = CaseExpression::new("role".to_string(), cases());

    let query = QueryBuilder::select()
        .table(&table)
        .order_by("role", QueryOrder::Case(case))
        .build()
        .unwrap();

    assert_eq!(
        query.query,
        "SELECT id, name, role, email FROM Test ORDER BY role CASE role WHEN 'Admin' THEN 1 WHEN 'Mod' THEN 2 WHEN 'User' THEN 3 END;"
    );
}

#[test]
fn test_order_clause_to_sql() {
    let mut order_clause = OrderClause::default();
    order_clause.push("name".to_string(), QueryOrder::Asc);
    order_clause.push("email".to_string(), QueryOrder::Desc);

    let sql = order_clause.sql();

    assert_eq!(sql, "ORDER BY name ASC, email DESC");
}

#[test]
fn empty_order_clause_is_empty() {
    let order_clause = OrderClause::default();
    assert!(order_clause.is_empty());
    assert_eq!(order_clause.sql(), "");
    assert_eq!(QueryOrder::NullsLast.sql(), "NULLS LAST");
}

#[test]
fn order_by_unknown_column_is_an_error() {
    let table = table();
    let result = QueryBuilder::select().table(&table).order_by("age", QueryOrder::Asc).build();
    let err = result.unwrap_err();
    assert_eq!(
        err.message(),
        "Failed to build SQL query: Failed to build SQL query: Column `age` does not exist in table `Test` (order_by) (build)"
    );
}
