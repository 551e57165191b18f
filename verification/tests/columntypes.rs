use geekorm_sql::backends::QueryBackend;
use geekorm_sql::builder::columntypes::{ColumnOptions, ColumnType};
use geekorm_sql::builder::QueryBuilder;

fn query() -> QueryBuilder {
    QueryBuilder::default()
}

fn postgres() -> QueryBuilder {
    let mut query = QueryBuilder::default();
    query.backend(QueryBackend::Postgres);
    query
}

#[test]
fn columntypes_test_column_type_boolean() {
    let column_type = ColumnType::Boolean;
    let options = ColumnOptions::default();
    let query = query();
    assert_eq!(column_type.to_sql_with_options(&options, &query).unwrap(), "INTEGER");
}

#[test]
fn columntypes_test_column_type_to_sql() {
    let query = query();
    let options = ColumnOptions::default();
    let column_type = ColumnType::Text;
    assert_eq!(column_type.to_sql_with_options(&options, &query).unwrap(), "TEXT");

    let column_type = ColumnType::Integer;
    assert_eq!(column_type.to_sql_with_options(&options, &query).unwrap(), "INTEGER");
}

#[test]
fn columntypes_test_column_type_options_to_sql() {
    let column_type_options = ColumnOptions::default();
    assert_eq!(column_type_options.sql(), "");

    let column_type_options = ColumnOptions { primary_key: true, ..Default::default() };
    assert_eq!(column_type_options.sql(), "PRIMARY KEY");

    let column_type_options = ColumnOptions { primary_key: true, auto_increment: true, ..Default::default() };
    assert_eq!(column_type_options.sql(), "PRIMARY KEY AUTOINCREMENT");

    let column_type_options = ColumnOptions { unique: true, ..Default::default() };
    assert_eq!(column_type_options.sql(), "UNIQUE");

    // The same options written for a query builder of no particular backend.
    let query = query();
    assert_eq!(ColumnOptions::default().to_sql(&query).unwrap(), "");
    assert_eq!(
        ColumnOptions { primary_key: true, ..Default::default() }.to_sql(&query).unwrap(),
        "PRIMARY KEY"
    );
    assert_eq!(
        ColumnOptions { primary_key: true, auto_increment: true, ..Default::default() }
            .to_sql(&query)
            .unwrap(),
        "PRIMARY KEY AUTOINCREMENT"
    );
}

#[test]
fn test_postgres_column_type_boolean() {
    let options = ColumnOptions::default();
    assert_eq!(ColumnType::Boolean.to_sql_with_options(&options, &postgres()).unwrap(), "BOOLEAN");
}

#[test]
fn test_postgres_column_type_blob() {
    let options = ColumnOptions::default();
    assert_eq!(ColumnType::Blob.to_sql_with_options(&options, &postgres()).unwrap(), "BYTEA");
}

#[test]
fn test_postgres_column_type_text() {
    let options = ColumnOptions::default();
    assert_eq!(ColumnType::Text.to_sql_with_options(&options, &postgres()).unwrap(), "TEXT");
}

#[test]
fn test_postgres_column_type_integer_with_autoincrement() {
    let options = ColumnOptions { primary_key: true, auto_increment: true, not_null: true, unique: true };
    assert_eq!(
        ColumnType::Integer.to_sql_with_options(&options, &postgres()).unwrap(),
        "SERIAL PRIMARY KEY"
    );
}

#[test]
fn test_postgres_column_type_integer_without_autoincrement() {
    let options = ColumnOptions { primary_key: false, auto_increment: false, not_null: true, unique: false };
    assert_eq!(
        ColumnType::Integer.to_sql_with_options(&options, &postgres()).unwrap(),
        "INTEGER NOT NULL"
    );
}

#[test]
fn test_postgres_column_options_primary_key_no_autoincrement() {
    let options = ColumnOptions { primary_key: true, auto_increment: false, ..Default::default() };
    assert_eq!(options.to_sql(&postgres()).unwrap(), "PRIMARY KEY");
}

#[test]
fn test_postgres_column_options_with_autoincrement() {
    let options = ColumnOptions { primary_key: true, auto_increment: true, ..Default::default() };
    assert_eq!(options.to_sql(&postgres()).unwrap(), "");
}

#[test]
fn test_postgres_column_options_not_null_unique() {
    let options = ColumnOptions { primary_key: false, auto_increment: false, not_null: true, unique: true };
    assert_eq!(options.to_sql(&postgres()).unwrap(), "NOT NULL UNIQUE");
}

#[test]
fn test_postgres_column_type_bigint_with_autoincrement() {
    let options = ColumnOptions { primary_key: true, auto_increment: true, not_null: true, unique: true };
    assert_eq!(
        ColumnType::BigInt.to_sql_with_options(&options, &postgres()).unwrap(),
        "BIGSERIAL PRIMARY KEY"
    );
}

#[test]
fn test_postgres_column_type_bigint_without_autoincrement() {
    let options = ColumnOptions { primary_key: false, auto_increment: false, not_null: true, unique: false };
    assert_eq!(
        ColumnType::BigInt.to_sql_with_options(&options, &postgres()).unwrap(),
        "BIGINT NOT NULL"
    );
}

#[test]
fn test_sqlite_bigint_as_integer() {
    let options = ColumnOptions::default();
    assert_eq!(ColumnType::BigInt.to_sql_with_options(&options, &query()).unwrap(), "INTEGER");
}

#[test]
fn sqlite_foreign_key_and_blob_types() {
    let options = ColumnOptions::default();
    assert_eq!(ColumnType::ForeignKey.to_sql_with_options(&options, &query()).unwrap(), "INTEGER");
    assert_eq!(ColumnType::Blob.to_sql_with_options(&options, &query()).unwrap(), "BLOB");
    let unique = ColumnOptions::unique();
    assert_eq!(ColumnType::Text.to_sql_with_options(&unique, &query()).unwrap(), "TEXT NOT NULL UNIQUE");
}
