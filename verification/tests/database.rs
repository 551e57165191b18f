use geekorm_sql::builder::columns::Column;
use geekorm_sql::builder::columntypes::ColumnType;
use geekorm_sql::builder::database::Database;
use geekorm_sql::builder::samples::{table_images, table_roles, table_users};
use geekorm_sql::builder::QueryBuilder;
use geekorm_sql::values::value::Value;

#[test]
fn database_lookups() {
    let db = Database { tables: vec![table_users(), table_images()] };
    assert_eq!(db.get_table_names(), vec!["Users", "Images"]);
    assert_eq!(db.get_table("Images").unwrap().name, "Images");
    assert!(db.get_table("Roles").is_none());
    assert_eq!(db.get_table_column("Users", "email").unwrap().name, "email");
    assert!(db.get_table_column("Users", "password").is_none());
    assert_eq!(db.get_table_columns("Images"), vec!["id", "title", "url"]);
}

#[test]
fn database_add_replaces_tables_of_the_same_name() {
    let mut db = Database { tables: vec![table_users(), table_images(), table_roles()] };
    let mut images = table_images();
    images.add_column(&Column::from(("width".to_string(), ColumnType::Integer)));
    db.add(images);
    assert_eq!(db.get_table_names(), vec!["Users", "Roles", "Images"]);
    assert_eq!(db.get_table_columns("Images"), vec!["id", "title", "url", "width"]);
}

#[test]
fn column_name_alias_and_comparisons() {
    let column = Column::from(("name".to_string(), "username".to_string()));
    assert_eq!(column.name_alias(), "username");
    let column = Column::from(("name".to_string(), ColumnType::Text));
    assert_eq!(column.name_alias(), "name");

    let table = table_images();
    let query = QueryBuilder::select()
        .table(&table)
        .where_ne("title", Value::from("a"))
        .where_gt("id", Value::from(1))
        .or()
        .where_lt("id", Value::from(9))
        .where_gte("id", Value::from(2))
        .where_lte("id", Value::from(8))
        .build()
        .unwrap();
    assert_eq!(
        query.query,
        "SELECT id, title, url FROM Images WHERE title != ? AND id > ? OR id < ? AND id >= ? AND id <= ?;"
    );
    assert_eq!(query.values.len(), 5);
}
