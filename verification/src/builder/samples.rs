//! Sample tables: users with roles and a profile image.
use vstd::prelude::*;
use crate::text::owned;
use super::columns::{Column, Columns, opt_view};
use super::columntypes::{ColumnOptions, ColumnType};
use super::table::Table;

verus! {

/// The column has the given name, type, options and foreign key, and belongs to
/// `table`.
pub open spec fn column_is(
    c: Column,
    table: Seq<char>,
    name: Seq<char>,
    t: ColumnType,
    o: ColumnOptions,
    fk: Option<Seq<char>>,
) -> bool {
    &&& c.name@ == name
    &&& c.column_type == t
    &&& c.column_options == o
    &&& c.alias is None
    &&& opt_view(c.foreign_key) == fk
    &&& opt_view(c.table_name) == Some(table)
}

/// Testing Users table: `id` (primary key), `username`, `email` (unique),
/// `roles` (foreign key to `Roles.id`) and `profile` (foreign key to `Images.id`).
pub fn table_users() -> (res: Table)
    ensures
        res.name@ == "Users"@,
        res.columns@.len() == 5,
        column_is(res.columns@[0], "Users"@, "id"@, ColumnType::Integer, ColumnOptions::spec_primary_key(), None),
        column_is(res.columns@[1], "Users"@, "username"@, ColumnType::Text, ColumnOptions::spec_default(), None),
        column_is(res.columns@[2], "Users"@, "email"@, ColumnType::Text, ColumnOptions::spec_unique(), None),
        column_is(res.columns@[3], "Users"@, "roles"@, ColumnType::ForeignKey, ColumnOptions::spec_default(), Some("Roles.id"@)),
        column_is(res.columns@[4], "Users"@, "profile"@, ColumnType::ForeignKey, ColumnOptions::spec_default(), Some("Images.id"@)),
{
    Table::new(
        "Users",
        Columns::new(
            vec![
                Column::from((owned("id"), ColumnType::Integer, ColumnOptions::primary_key())),
                Column::from((owned("username"), ColumnType::Text)),
                Column::from((owned("email"), ColumnType::Text, ColumnOptions::unique())),
                Column::new_foreign_key("roles", "Roles.id"),
                Column::new_foreign_key("profile", "Images.id"),
            ],
        ),
    )
}

/// Testing Roles table: `id` (primary key).
pub fn table_roles() -> (res: Table)
    ensures
        res.name@ == "Roles"@,
        res.columns@.len() == 1,
        column_is(res.columns@[0], "Roles"@, "id"@, ColumnType::Integer, ColumnOptions::spec_primary_key(), None),
{
    Table::new(
        "Roles",
        Columns::new(vec![Column::from((owned("id"), ColumnType::Integer, ColumnOptions::primary_key()))]),
    )
}

/// Testing Images table: `id` (primary key), `title` and `url`.
pub fn table_images() -> (res: Table)
    ensures
        res.name@ == "Images"@,
        res.columns@.len() == 3,
        column_is(res.columns@[0], "Images"@, "id"@, ColumnType::Integer, ColumnOptions::spec_primary_key(), None),
        column_is(res.columns@[1], "Images"@, "title"@, ColumnType::Text, ColumnOptions::spec_default(), None),
        column_is(res.columns@[2], "Images"@, "url"@, ColumnType::Text, ColumnOptions::spec_default(), None),
{
    Table::new(
        "Images",
        Columns::new(
            vec![
                Column::from((owned("id"), ColumnType::Integer, ColumnOptions::primary_key())),
                Column::from((owned("title"), ColumnType::Text)),
                Column::from((owned("url"), ColumnType::Text)),
            ],
        ),
    )
}

} // verus!
