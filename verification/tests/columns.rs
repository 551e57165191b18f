use geekorm_sql::builder::columns::{Column, Columns};
use geekorm_sql::builder::columntypes::{ColumnOptions, ColumnType};
use geekorm_sql::builder::samples::{table_images, table_users};
use geekorm_sql::builder::QueryBuilder;

#[test]
fn test_column_name() {
    let mut column = Column::from(("id".to_string(), ColumnType::Text));
    assert_eq!(&column.name(), "id");

    column.table_name = Some("Test".to_string());
    assert_eq!(&column.name(), "id");
    assert_eq!(&column.fullname(), "Test.id");
}

#[test]
fn sqlite_single_column_to_sql() {
    let table = table_users();
    let mut query = QueryBuilder::select();
    query.table(&table);

    let column = Column::from(("id".to_string(), ColumnType::Integer));

    let column_sql = column.to_sql(&query).unwrap();

    assert_eq!(column_sql.as_str(), "id");
}

#[test]
fn sqlite_column_alias() {
    let table = table_users();
    let mut query = QueryBuilder::select();
    query.table(&table);

    let mut column = Column::from(("id".to_string(), ColumnType::Integer, ColumnOptions::primary_key()));
    column.alias = Some("pk".to_string());

    let column_sql = column.to_sql(&query).unwrap();

    assert_eq!(column_sql.as_str(), "id AS pk");
}

#[test]
fn test_columns_to_sql() {
    let table = table_images();
    let mut query = QueryBuilder::select();
    query.table(&table);

    let columns = Columns::to_sql(&table.columns, &query).unwrap();

    assert_eq!(columns.as_str(), "id, title, url");
}

#[test]
fn test_column() {
    let column = Column::from(("id".to_string(), ColumnType::Integer));

    assert_eq!(column.name, "id");
    assert_eq!(column.column_type, ColumnType::Integer);
    assert_eq!(column.alias, None);
    assert_eq!(column.sql(), "id");
}

#[test]
fn test_column_with_alias() {
    let column_with_alias = Column::from(("name".to_string(), "username".to_string()));
    assert_eq!(column_with_alias.name, "name");
    assert_eq!(column_with_alias.alias.clone().unwrap(), "username");
    assert_eq!(column_with_alias.sql(), "name AS username");
}

#[test]
fn test_column_foreign_key() {
    let column = Column::new_foreign_key("image_id", "Images.id");
    let (foreign_key_table, foreign_key_col) = column.get_foreign_key().unwrap();

    assert_eq!(foreign_key_table, "Images");
    assert_eq!(foreign_key_col, "id");
}

#[test]
fn column_foreign_key_without_dot_has_no_target() {
    let column = Column::new_foreign_key("image_id", "Images");
    assert_eq!(column.get_foreign_key(), None);
    let column = Column::new_foreign_key("image_id", "a.b.c");
    assert_eq!(column.get_foreign_key(), Some(("a", "b.c")));
}

#[test]
fn column_primary_key_and_fullname_without_table() {
    let column = Column::primary_key("id");
    assert_eq!(column.column_type, ColumnType::Integer);
    assert_eq!(column.column_options, ColumnOptions::primary_key());
    assert_eq!(column.fullname(), "id");
}

#[test]
fn column_with_empty_alias_is_written_without_it() {
    let column = Column::from(("name".to_string(), String::new()));
    assert_eq!(column.sql(), "name");
}

#[test]
fn columns_find_by_name_or_alias() {
    let mut columns = Columns::new(vec![
        Column::from(("id".to_string(), ColumnType::Integer)),
        Column::from(("name".to_string(), "username".to_string())),
    ]);
    assert!(columns.contains("username"));
    assert!(columns.contains("name"));
    assert!(!columns.contains("email"));
    assert_eq!(columns.find("name"), Some(1));
    columns.add_column(Column::new_foreign_key("image", "Images.id"));
    assert_eq!(columns.get_foreign_keys().len(), 1);
    assert_eq!(columns.sql(), "id, name, image");
}

fn test_table() -> geekorm_sql::builder::table::Table {
    geekorm_sql::builder::table::Table::new(
        "Test",
        Columns::new(vec![
            Column::from(("id".to_string(), ColumnType::Integer, ColumnOptions::primary_key())),
            Column::from(("name".to_string(), ColumnType::Text)),
            Column::from(("email".to_string(), ColumnType::Text)),
            Column::from(("image_id".to_string(), ColumnType::ForeignKey)),
        ]),
    )
}

#[test]
fn test_columns_create() {
    let table = test_table();
    let mut query = QueryBuilder::create();
    query.table(&table);

    let sql = Columns::to_sql(&table.columns, &query).unwrap();

    assert_eq!(sql, "id INTEGER PRIMARY KEY AUTOINCREMENT, name TEXT, email TEXT, image_id INTEGER");
}

#[test]
fn test_columns_select_to_sql() {
    let table = test_table();
    let mut query = QueryBuilder::select();
    query.table(&table);

    let columns = Columns::to_sql(&table.columns, &query).unwrap();

    assert_eq!(columns, "id, name, email, image_id");
}

#[test]
fn sqlite_column_joins() {
    let table = table_users();
    let roles_table = geekorm_sql::builder::samples::table_roles();
    let image_table = table_images();

    let mut query = QueryBuilder::select();
    query.table(&table).join(&image_table).join(&roles_table);

    println!("ERRORS :: {:?}", query.errors);
    assert_eq!(query.joins.joins.len(), 2);

    // No concept of joins
    let columns = image_table.columns.sql();
    assert_eq!(columns.as_str(), "id, title, url");

    let full_sql = table.columns.to_sql(&query).unwrap();

    assert_eq!(
        full_sql.as_str(),
        "Users.id, Users.username, Users.email, Users.roles, Users.profile, Images.id, Images.title, Images.url, Roles.id"
    );
}
