use geekorm_sql::builder::conditions::{QueryCondition, WhereClause, WhereCondition};
use geekorm_sql::builder::samples::table_users;
use geekorm_sql::builder::QueryBuilder;
use geekorm_sql::values::value::Value;
use geekorm_sql::values::values::ValueBindingMode;

#[test]
fn test_where_clause_eq() {
    let mut where_clause = WhereClause::default();
    where_clause.push("id".to_string(), QueryCondition::Eq);

    let query = where_clause.sql();

    assert_eq!(query, "WHERE id = ?");
}

#[test]
fn test_where_clause_and() {
    let mut where_clause = WhereClause::default();
    where_clause.push("id".to_string(), QueryCondition::Eq);
    where_clause.push_condition(WhereCondition::And).unwrap();
    where_clause.push("name".to_string(), QueryCondition::Like);

    let query = where_clause.sql();

    assert_eq!(query, "WHERE id = ? AND name LIKE ?");
}

#[test]
fn test_where_clause_or() {
    let mut where_clause = WhereClause::default();
    where_clause.push("id".to_string(), QueryCondition::Eq);
    where_clause.push_condition(WhereCondition::Or).unwrap();
    where_clause.push("name".to_string(), QueryCondition::Like);

    let query = where_clause.sql();

    assert_eq!(query, "WHERE id = ? OR name LIKE ?");
}

#[test]
fn test_where_named_query() {
    let table = table_users();
    let query = QueryBuilder::select()
        .table(&table)
        .set_value_mode(ValueBindingMode::Named)
        .where_eq("id", Value::from(1))
        .or()
        .where_like("username", Value::from("geek"))
        .build()
        .unwrap();

    assert_eq!(query.values.len(), 2);
    assert_eq!(
        query.sql(),
        "SELECT id, username, email, roles, profile FROM Users WHERE id = :id OR username LIKE :username;"
    );
}

#[test]
fn test_where_numeric_query() {
    let table = table_users();
    let query = QueryBuilder::select()
        .table(&table)
        .set_value_mode(ValueBindingMode::Numeric)
        .where_like("username", Value::from("geek"))
        .where_eq("id", Value::from(1))
        .build()
        .unwrap();

    assert_eq!(query.values.len(), 2);
    assert_eq!(
        query.sql(),
        "SELECT id, username, email, roles, profile FROM Users WHERE username LIKE ?1 AND id = ?2;"
    );
}

#[test]
fn where_condition_on_empty_clause_is_refused() {
    let mut where_clause = WhereClause::default();
    let err = where_clause.push_condition(WhereCondition::And).unwrap_err();
    assert_eq!(err.message(), "Failed to build SQL query: Cannot push condition to empty where clause (push_condition)");
    assert!(where_clause.is_empty());
}

#[test]
fn where_conditions_sql() {
    let all = [
        (QueryCondition::Eq, "="),
        (QueryCondition::Ne, "!="),
        (QueryCondition::Like, "LIKE"),
        (QueryCondition::Gt, ">"),
        (QueryCondition::Lt, "<"),
        (QueryCondition::Gte, ">="),
        (QueryCondition::Lte, "<="),
    ];
    for (c, s) in all.iter() {
        assert_eq!(c.sql(), *s);
    }
    assert_eq!(WhereCondition::And.sql(), "AND");
    assert_eq!(WhereCondition::Or.sql(), "OR");
    assert_eq!(WhereCondition::all(), vec!["AND".to_string(), "OR".to_string()]);
}
