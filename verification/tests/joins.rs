use geekorm_sql::builder::joins::{TableJoin, TableJoins};
use geekorm_sql::builder::samples::table_users;

#[test]
fn test_get_fk() {
    let users = table_users();

    let fk = users.get_foreign_key("Roles.id".to_string());
    assert!(fk.is_some());
    let fk = users.get_foreign_key("Roles".to_string());
    assert!(fk.is_some());
}

#[test]
fn sqlite_table_join_on_select() {
    let join = TableJoin::Join { left: "Users.roles".to_string(), right: "Roles.id".to_string() };

    let select_query = join.sql();

    assert_eq!(select_query, "JOIN Roles ON Users.roles = Roles.id")
}

#[test]
fn inner_join_and_lookup_by_left_side() {
    let mut joins = TableJoins::new();
    assert!(joins.is_empty());
    joins.push(TableJoin::InnerJoin { left: "Users.profile".to_string(), right: "Images.id".to_string() });
    joins.push(TableJoin::new("Users.roles", "Roles.id"));
    assert_eq!(
        joins.sql(),
        "INNER JOIN Images ON Users.profile = Images.idJOIN Roles ON Users.roles = Roles.id"
    );
    assert_eq!(joins.get("Users.roles").unwrap().right(), "Roles.id");
    assert!(joins.get("Users.email").is_none());
}

#[test]
fn foreign_key_lookup_misses_unknown_table() {
    let users = table_users();
    assert!(users.get_foreign_key("Posts".to_string()).is_none());
    assert_eq!(users.get_foreign_key("Images.id".to_string()).unwrap().name, "profile");
}
