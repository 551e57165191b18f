use geekorm_sql::builder::conditions::QueryCondition;
use geekorm_sql::builder::QueryType;
use geekorm_sql::error::Error;
use geekorm_sql::query::{BatchQueries, Query};
use geekorm_sql::sql::SqlQuery;
use geekorm_sql::ToSql;

#[test]
fn batch_from_sql_text_keeps_statement_lines() {
    let text = "-- create the users\nCREATE TABLE Users (id INTEGER);\r\n\n   \n  INSERT INTO Users VALUES (1);  \n-- done";
    let batch = BatchQueries::from_sql_text(text);
    let queries = batch.queries();
    assert_eq!(queries.len(), 2);
    assert_eq!(queries[0].query, "CREATE TABLE Users (id INTEGER);");
    assert_eq!(queries[1].query, "INSERT INTO Users VALUES (1);");
    assert_eq!(queries[0].query_type, QueryType::Unknown);
    assert_eq!(queries[1].values.len(), 0);
    assert_eq!(BatchQueries::from_sql_text("").queries().len(), 0);
    assert_eq!(BatchQueries::from_sql_text("-\n- x").queries().len(), 2);
}

#[test]
fn transaction_without_rollback() {
    let mut batch = BatchQueries::new();
    batch.push(Query::from_sql("DELETE FROM Users;".to_string()));
    let query = Query::transaction().queries(batch).rollback(false).build().unwrap();
    assert_eq!(query.sql(), "BEGIN TRANSACTION;\n\nDELETE FROM Users;\n\nCOMMIT;");
    assert_eq!(query.query_type, QueryType::Transaction);
}

#[test]
fn sql_query_text_editing() {
    let mut sql = SqlQuery::new();
    assert!(sql.is_empty());
    sql.push_str("  SELECT 1");
    sql.push(';');
    sql.push_str("  ");
    assert!(sql.starts_with("  SEL"));
    assert!(!sql.ends_with(";"));
    sql.trim();
    assert_eq!(sql.to_string(), "SELECT 1;");
    assert!(sql.ends_with(";"));
    assert_eq!(SqlQuery::from("x".to_string()).to_string(), "x");
}

#[test]
fn error_messages() {
    assert_eq!(
        Error::query_builder("bad", "here").message(),
        "Failed to build SQL query: bad (here)"
    );
    assert_eq!(Error::SqlFileNotFound { path: "a.sql".to_string() }.message(), "SQL File not Found: a.sql");
    assert_eq!(
        Error::TryFromValueError { field: "uuid".to_string() }.message(),
        "Failed to convert value: uuid"
    );
}

#[test]
fn to_sql_trait_writes_the_same_text() {
    let query = Query::from_sql("SELECT 1;".to_string());
    assert_eq!(ToSql::sql(&query), "SELECT 1;");
    assert_eq!(ToSql::sql(&QueryCondition::Like), "LIKE");
}
