use geekorm_sql::builder::table::TableExpr;
use geekorm_sql::builder::samples::table_users;

#[test]
fn test_table() {
    let table = TableExpr::new("users");
    let mut sql = String::new();
    table.to_sql_stream(&mut sql);
    assert_eq!(sql, "FROM users");
}

#[test]
fn test_table_expr_alias() {
    let mut table = TableExpr::new("users");
    table.alias("u".to_string());
    let mut sql = String::new();
    table.to_sql_stream(&mut sql);
    assert_eq!(sql, "FROM users AS u");
}

#[test]
fn table_columns_know_their_table() {
    let users = table_users();
    assert_eq!(users.get_fullname("email"), "Users.email");
    assert_eq!(users.get_primary_key().unwrap().name, "id");
    assert!(users.is_valid_column("profile"));
    assert!(!users.is_valid_column("password"));
    assert_eq!(users.find_column("roles").unwrap().foreign_key.as_deref(), Some("Roles.id"));
}
