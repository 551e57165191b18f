use geekorm_sql::backends::{QueryBackend, SqliteBackendOptions};
use geekorm_sql::builder::columns::{Column, Columns};
use geekorm_sql::builder::columntypes::{ColumnOptions, ColumnType};
use geekorm_sql::builder::ordering::QueryOrder;
use geekorm_sql::builder::queries::alter::{AlterMode, AlterQuery};
use geekorm_sql::builder::samples::{table_images, table_users};
use geekorm_sql::builder::table::Table;
use geekorm_sql::builder::{QueryBuilder, QueryType};
use geekorm_sql::query::{BatchQueries, Query};
use geekorm_sql::values::value::Value;
use geekorm_sql::values::values::Values;

fn alter_table() -> Table {
    Table::new(
        "Test",
        Columns::new(vec![
            Column::from(("id".to_string(), ColumnType::Integer, ColumnOptions::primary_key())),
            Column::from(("name".to_string(), ColumnType::Text)),
            Column::from(("email".to_string(), ColumnType::Text, ColumnOptions::unique())),
            Column::from(("image_id".to_string(), ColumnType::ForeignKey, "Images.id".to_string())),
        ]),
    )
}

fn small_table() -> Table {
    Table::new(
        "Test",
        Columns::new(vec![
            Column::from(("id".to_string(), ColumnType::Integer, ColumnOptions::primary_key())),
            Column::from(("name".to_string(), ColumnType::Text)),
        ]),
    )
}

fn people_table() -> Table {
    Table::new(
        "Test",
        Columns::new(vec![
            Column::from(("id".to_string(), ColumnType::Integer, ColumnOptions::primary_key())),
            Column::from(("name".to_string(), ColumnType::Text)),
            Column::from(("email".to_string(), ColumnType::Text)),
        ]),
    )
}

#[test]
fn sqlite_alter() {
    let table = alter_table();
    let column = table.find_column("email").unwrap().clone();

    let query = AlterQuery::new().mode(AlterMode::AddTable).table(&table).column(&column).build().unwrap();

    assert_eq!(query.query, "ALTER TABLE Test ADD COLUMN email;")
}

#[test]
fn sqlite_alter_add_table() {
    let table = alter_table();
    let column = table.find_column("email").unwrap().clone();

    let query = AlterQuery::add_table(&table, &column).unwrap();

    assert_eq!(query.query, "ALTER TABLE Test ADD COLUMN email;");
}

#[test]
fn sqlite_alter_rename_table() {
    let table = alter_table();
    let query = AlterQuery::rename_table(&table, "Test2").unwrap();

    assert_eq!(query.query, "ALTER TABLE Test RENAME TO Test2;");
}

#[test]
fn sqlite_alter_drop_table() {
    let table = alter_table();
    let query = AlterQuery::drop_table(&table).unwrap();

    assert_eq!(query.query, "DROP TABLE IF EXISTS Test;");
}

#[test]
fn sqlite_alter_rename_column() {
    let table = alter_table();
    let column = table.find_column("email").unwrap().clone();

    let query = AlterQuery::rename_column(&table, &column, "bmail").unwrap();

    assert_eq!(query.query, "ALTER TABLE Test RENAME COLUMN email TO bmail;");
}

#[test]
fn sqlite_alter_drop_column() {
    let table = alter_table();
    let column = table.find_column("email").unwrap().clone();

    let query = AlterQuery::drop_column(&table, &column).unwrap();

    assert_eq!(query.query, "ALTER TABLE Test DROP COLUMN email;");
}

#[test]
fn alter_add_column_gives_defaults_to_not_null_columns() {
    let table = alter_table();
    let email = table.find_column("email").unwrap().clone();
    let name = table.find_column("name").unwrap().clone();
    let query = AlterQuery::new().mode(AlterMode::AddColumn).table(&table).column(&email).build().unwrap();
    assert_eq!(query.query, "ALTER TABLE Test ADD COLUMN email TEXT NOT NULL DEFAULT '';");
    assert_eq!(query.query_type, QueryType::Alter);
    let query = AlterQuery::new().mode(AlterMode::AddColumn).table(&table).column(&name).build().unwrap();
    assert_eq!(query.query, "ALTER TABLE Test ADD COLUMN name TEXT;");
    let id = table.find_column("id").unwrap().clone();
    let query = AlterQuery::new().mode(AlterMode::AddColumn).table(&table).column(&id).build().unwrap();
    assert_eq!(query.query, "ALTER TABLE Test ADD COLUMN id INTEGER NOT NULL DEFAULT 0;");
    let fk = table.find_column("image_id").unwrap().clone();
    let query = AlterQuery::new().mode(AlterMode::AddColumn).table(&table).column(&fk).build().unwrap();
    assert_eq!(query.query, "ALTER TABLE Test ADD COLUMN image_id BEANS;");
}

#[test]
fn alter_modes_without_work_and_renames_without_names() {
    let table = alter_table();
    let email = table.find_column("email").unwrap().clone();
    let query = AlterQuery::new().table(&table).build().unwrap();
    assert_eq!(query.query, "ALTER TABLE Test ;");
    let query = AlterQuery::new().mode(AlterMode::RenameColumn).table(&table).column(&email).build().unwrap();
    assert_eq!(query.query, "ALTER TABLE Test RENAME COLUMN email TO email;");
    let query = AlterQuery::new().mode(AlterMode::RenameTable).table(&table).build().unwrap();
    assert_eq!(query.query, "ALTER TABLE Test RENAME TO ;");
    let query = AlterQuery::new().mode(AlterMode::RenameTable).table(&table).rename("Other").build().unwrap();
    assert_eq!(query.query, "ALTER TABLE Test RENAME TO Other;");
}

#[test]
fn test_count_sqlite() {
    let table = small_table();
    let query = QueryBuilder::count()
        .backend(QueryBackend::Sqlite { options: SqliteBackendOptions::default() })
        .table(&table)
        .build()
        .unwrap();

    assert_eq!(query.query, "SELECT COUNT(1) FROM Test;");
}

#[test]
fn test_count_where() {
    let table = small_table();
    let query = QueryBuilder::count()
        .backend(QueryBackend::Sqlite { options: SqliteBackendOptions::default() })
        .table(&table)
        .where_eq("id", Value::from(1))
        .build()
        .unwrap();

    assert_eq!(query.query, "SELECT COUNT(1) FROM Test WHERE id = ?;");
}

#[test]
fn sqlite_create_query() {
    let table = table_images();
    let query = QueryBuilder::create().table(&table).build().expect("Failed to create query");

    assert_eq!(
        query.query.as_str(),
        "CREATE TABLE IF NOT EXISTS Images (id INTEGER PRIMARY KEY AUTOINCREMENT, title TEXT, url TEXT);"
    );
}

#[test]
fn sqlite_create_joins() {
    let table = table_users();

    let query = QueryBuilder::create().table(&table).build().expect("Failed to create query");

    assert_eq!(
        query.query.as_str(),
        "CREATE TABLE IF NOT EXISTS Users (id INTEGER PRIMARY KEY AUTOINCREMENT, username TEXT, email TEXT NOT NULL UNIQUE, roles INTEGER, profile INTEGER) FOREIGN KEY (roles) REFERENCES Roles (id)FOREIGN KEY (profile) REFERENCES Images (id));"
    );
}

#[test]
fn delete_test_sql_delete() {
    let table = small_table();
    let query = QueryBuilder::delete().table(&table).where_eq("id", Value::from(1)).build().unwrap();

    assert_eq!(query.query, "DELETE FROM Test WHERE id = ?;");
    assert_eq!(query.values.len(), 1);
}

#[test]
fn delete_by_primary_key() {
    let table = small_table();
    let query = QueryBuilder::delete().table(&table).where_primary_key(Value::from(1)).build().unwrap();
    assert_eq!(query.query, "DELETE FROM Test WHERE id = ?;");
    assert_eq!(query.values.len(), 1);
}

#[test]
fn insert_leaves_out_auto_increment_columns() {
    let table = people_table();
    let query = QueryBuilder::insert()
        .table(&table)
        .add_value("id", Value::from(1))
        .add_value("name", Value::from("John Doe"))
        .add_value("email", Value::from("john.doe@example.com"))
        .build()
        .unwrap();

    assert_eq!(query.values.len(), 3);
    assert_eq!(query.query, "INSERT INTO Test (name, email) VALUES (?, ?);");
}

#[test]
fn sqlite_insert_rollback() {
    let table = people_table();
    let query = QueryBuilder::insert()
        .backend(QueryBackend::Sqlite { options: SqliteBackendOptions { transactions: true } })
        .table(&table)
        .add_value("id", Value::from(1))
        .add_value("name", Value::from("John Doe"))
        .add_value("email", Value::from("john.doe@example.com"))
        .build()
        .unwrap();

    assert_eq!(query.query, "INSERT OR ROLLBACK INTO Test (name, email) VALUES (?, ?);");
}

#[test]
fn sqlite_select_basic() {
    let table = table_images();
    let query = QueryBuilder::select().table(&table).build().expect("Failed to build basic SQL query");

    assert_eq!(query.query, "SELECT id, title, url FROM Images;");
}

#[test]
fn sqlite_select_where() {
    let table = table_images();
    let query = QueryBuilder::select().table(&table).where_eq("title", Value::from("test")).build().unwrap();

    assert_eq!(query.values.len(), 1);
    assert_eq!(query.query, "SELECT id, title, url FROM Images WHERE title = ?;");

    let mut values = Values::new();
    values.push("title", Value::from("test"));
    assert_eq!(query.values, values);
}

#[test]
fn sqlite_order_clause() {
    let table = table_images();
    let query = QueryBuilder::select()
        .backend(QueryBackend::Sqlite { options: SqliteBackendOptions::default() })
        .table(&table)
        .order_by("title", QueryOrder::Asc)
        .order_by("url", QueryOrder::Desc)
        .build()
        .unwrap();

    assert_eq!(query.query, "SELECT id, title, url FROM Images ORDER BY title ASC, url DESC;");
}

fn batches(table: &Table) -> BatchQueries {
    let mut queries = BatchQueries::new();
    queries.push(QueryBuilder::update().table(table).where_eq("id", Value::from(1)).build().unwrap());
    queries
}

#[test]
fn sqlite_batch_to_query() {
    let users = table_users();
    let queries = batches(&users);

    let query = Query::transaction().queries(queries).build().expect("Failed to create transaction query");
    let sql = query.sql();

    assert_eq!(sql, "BEGIN TRANSACTION;\n\nUPDATE Users SET  WHERE id = 1;\n\nON CONFLICT ROLLBACK;\nCOMMIT;");
}

#[test]
fn sqlite_update_query() {
    let table = people_table();
    let query = QueryBuilder::update()
        .table(&table)
        .add_value("id", Value::from("1"))
        .add_value("name", Value::from("bob"))
        .add_value("email", Value::from("bob@example.com"))
        .build()
        .unwrap();

    assert_eq!(query.query, "UPDATE Test SET name = ?, email = ? WHERE id = 1;");
}

#[test]
fn sqlite_update_rollback() {
    let table = people_table();
    let query = QueryBuilder::update()
        .backend(QueryBackend::Sqlite { options: SqliteBackendOptions { transactions: true } })
        .table(&table)
        .add_value("id", Value::from("1"))
        .add_value("name", Value::from("bob"))
        .add_value("email", Value::from("bob@example.com"))
        .build()
        .unwrap();

    assert_eq!(query.query, "UPDATE OR ROLLBACK Test SET name = ?, email = ? WHERE id = 1;");
}

#[test]
fn build_reports_recorded_errors() {
    let table = people_table();
    let err = QueryBuilder::select()
        .table(&table)
        .where_eq("age", Value::from(3))
        .limit(0)
        .build()
        .unwrap_err();
    assert_eq!(
        err.message(),
        "Failed to build SQL query: Failed to build SQL query: Column `age` does not exist in table `Test` (where_eq), Failed to build SQL query: Limit cannot be 0 (limit) (build)"
    );
}

#[test]
fn build_of_unknown_type_fails() {
    let table = people_table();
    let err = QueryBuilder::default().table(&table).build().unwrap_err();
    assert_eq!(err.message(), "Failed to build SQL query: Unknown query type (to_sql)");
}

#[test]
fn where_without_table_is_an_error() {
    let err = QueryBuilder::select().where_eq("id", Value::from(1)).build().unwrap_err();
    assert_eq!(err.message(), "Failed to build SQL query: Failed to build SQL query: No table specified (where_eq) (build)");
    let err = QueryBuilder::select().where_eq("Posts.id", Value::from(1)).build().unwrap_err();
    assert_eq!(
        err.message(),
        "Failed to build SQL query: Failed to build SQL query: Table `Posts` does not exist (where_eq) (build)"
    );
}

#[test]
fn filter_fields_choose_conditions() {
    let table = people_table();
    let query = QueryBuilder::select()
        .table(&table)
        .filter(vec![("=id", Value::from(1)), ("~name", Value::from("b%")), ("!email", Value::from("x"))])
        .build()
        .unwrap();
    assert_eq!(
        query.query,
        "SELECT id, name, email FROM Test WHERE id = ? AND name LIKE ? AND email != ?;"
    );
    assert_eq!(query.values.len(), 3);
}

#[test]
fn validate_table_column_looks_in_first_table() {
    let table = people_table();
    let mut query = QueryBuilder::select();
    query.table(&table);
    assert_eq!(query.validate_table_column("name").unwrap(), true);
    assert!(query.validate_table_column("age").is_err());
    assert!(query.find_column("age").is_none());
    let empty = QueryBuilder::select();
    assert!(empty.validate_table_column("name").is_err());
}

#[test]
fn sqlite_inner_join() {
    let table = table_users();
    let image_table = table_images();

    let query = QueryBuilder::select().table(&table).join(&image_table).build().unwrap();

    assert_eq!(
        query.query,
        "SELECT Users.id, Users.username, Users.email, Users.roles, Users.profile, Images.id, Images.title, Images.url FROM Users JOIN Images ON Users.profile = Images.id;"
    );
}

#[test]
fn join_without_foreign_key_is_an_error() {
    let table = table_images();
    let users = table_users();
    let err = QueryBuilder::select().table(&table).join(&users).build().unwrap_err();
    assert_eq!(
        err.message(),
        "Failed to build SQL query: Failed to build SQL query: Table `Images` has no foreign key to `Users` (join) (build)"
    );
}
