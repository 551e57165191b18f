use geekorm_sql::query::columns::{Column, ColumnOptions, Columns};
use geekorm_sql::query::columntypes::ColumnType;
use geekorm_sql::query::Query;
use geekorm_sql::ToSql;

fn columns() -> Columns {
    Columns::new(vec![
        Column::from(("id".to_string(), ColumnType::Integer, ColumnOptions::primary_key())),
        Column::from(("name".to_string(), ColumnType::Text)),
        Column::from(("email".to_string(), ColumnType::Text)),
        Column::from(("image_id".to_string(), ColumnType::ForeignKey)),
    ])
}

#[test]
fn query_column_plain() {
    let column = Column::from(("id".to_string(), ColumnType::Integer));
    assert_eq!(column.name, "id");
    assert_eq!(column.column_type, ColumnType::Integer);
    assert_eq!(column.alias, None);
    assert_eq!(column.sql(), "id");
    assert_eq!(column.name(), "id");
}

#[test]
fn query_column_alias_is_its_name() {
    let column = Column::from(("name".to_string(), "username".to_string()));
    assert_eq!(column.name, "name");
    assert_eq!(column.alias.clone().unwrap(), "username");
    assert_eq!(column.sql(), "name AS username");
    assert_eq!(column.name(), "username");

    let empty = Column::from(("name".to_string(), String::new()));
    assert_eq!(empty.sql(), "name");
    assert_eq!(empty.name(), "");
}

#[test]
fn query_column_foreign_key() {
    let column = Column::new_foreign_key("image_id", "Images.id");
    let (table, col) = column.get_foreign_key().unwrap();
    assert_eq!(table, "Images");
    assert_eq!(col, "id");
    assert_eq!(Column::primary_key("id").get_foreign_key(), None);
}

#[test]
fn query_columns_lookup() {
    let mut cols = columns();
    assert!(cols.contains("email"));
    assert!(!cols.contains("username"));
    cols.add_column(Column::from(("name".to_string(), "username".to_string())));
    assert!(cols.contains("username"));
    let fks = cols.get_foreign_keys();
    assert_eq!(fks.len(), 1);
    assert_eq!(fks[0].name, "image_id");
}

#[test]
fn query_column_types_and_options() {
    let query = Query::default();
    let none = ColumnOptions::default();
    assert_eq!(ColumnType::Boolean.to_sql_with_options(&none, &query).unwrap(), "INTEGER");
    assert_eq!(ColumnType::Text.to_sql_with_options(&none, &query).unwrap(), "TEXT");
    assert_eq!(ColumnType::Blob.to_sql_with_options(&none, &query).unwrap(), "BLOB");
    assert_eq!(
        ColumnType::Integer.to_sql_with_options(&ColumnOptions::primary_key(), &query).unwrap(),
        "INTEGER PRIMARY KEY AUTOINCREMENT"
    );
    assert_eq!(none.sql(), "");
    assert_eq!(ColumnOptions { primary_key: true, ..ColumnOptions::default() }.sql(), "PRIMARY KEY");
    assert_eq!(ColumnOptions::unique().sql(), "UNIQUE");
    assert_eq!(
        ColumnOptions { not_null: true, unique: true, ..ColumnOptions::default() }.sql(),
        "NOT NULL UNIQUE"
    );
}
