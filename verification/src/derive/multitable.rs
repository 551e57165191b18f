//! Link tables of one-to-many relationships between derived tables.
use vstd::prelude::*;
use crate::builder::columns::{Column, Columns, opt_view};
use crate::builder::columntypes::{ColumnOptions, ColumnType};
use crate::builder::table::Table;
use crate::text::{first_index, owned, push_str};
use super::DeriveError;
use super::column::{ColumnDerive, primary_key_pred};
use super::table::TableDerive;

verus! {

/// The text `str::to_lowercase` gives for a text.
pub uninterp spec fn lowercase(s: Seq<char>) -> Seq<char>;

/// `str::to_lowercase(s)`.
#[verifier::external_body]
fn to_lowercase(s: &str) -> (res: String)
    ensures
        res@ == lowercase(s@),
{
    s.to_lowercase()
}

/// The column has the given name, type, options and foreign key target, and
/// nothing else.
pub open spec fn plain_column(c: Column, name: Seq<char>, t: ColumnType, o: ColumnOptions, fk: Option<Seq<char>>) -> bool {
    &&& c.name@ == name
    &&& c.column_type == t
    &&& c.column_options == o
    &&& c.alias is None
    &&& opt_view(c.foreign_key) == fk
    &&& c.table_name is None
}

/// The options of a link table's key.
pub open spec fn link_key_options() -> ColumnOptions {
    ColumnOptions { primary_key: true, unique: true, not_null: true, auto_increment: true }
}

/// The options of a link table's foreign keys.
pub open spec fn link_reference_options() -> ColumnOptions {
    ColumnOptions { primary_key: false, unique: false, not_null: true, auto_increment: false }
}

/// The link table between `table` (whose primary key is `pk`) and `foreign`:
/// named `table_foreign`, with an `id` key, a `table_id` foreign key to
/// `table.pk`, and a `foreign_id` foreign key to `target`.
pub open spec fn is_link_table(t: Table, table: Seq<char>, pk: Seq<char>, foreign: Seq<char>, target: Seq<char>) -> bool {
    &&& t.name@ == table + "_"@ + foreign
    &&& t.columns@.len() == 3
    &&& plain_column(t.columns@[0], "id"@, ColumnType::Integer, link_key_options(), None)
    &&& plain_column(
        t.columns@[1],
        lowercase(table) + "_id"@,
        ColumnType::ForeignKey,
        link_reference_options(),
        Some(table + "."@ + pk),
    )
    &&& plain_column(
        t.columns@[2],
        lowercase(foreign) + "_id"@,
        ColumnType::ForeignKey,
        link_reference_options(),
        Some(target),
    )
}

/// The target a foreign key column refers to, empty when it names none.
pub open spec fn target_of(c: ColumnDerive) -> Seq<char> {
    match opt_view(c.foreign_key) {
        Some(t) => t,
        None => Seq::empty(),
    }
}

fn reference(name: String, target: String) -> (res: Column)
    ensures
        plain_column(res, name@, ColumnType::ForeignKey, link_reference_options(), Some(target@)),
{
    Column {
        name,
        column_type: ColumnType::ForeignKey,
        column_options: ColumnOptions { primary_key: false, unique: false, not_null: true, auto_increment: false },
        alias: None,
        foreign_key: Some(target),
        table_name: None,
    }
}

/// The link table of a one-to-many relationship from `table` to `foreign_table`
/// through `column`. The table needs a primary key, and the column must be a
/// foreign key.
pub fn one_to_many(table: &TableDerive, column: &ColumnDerive, foreign_table: &str) -> (res: Result<Table, DeriveError>)
    ensures
        match first_index(table.columns.columns@, primary_key_pred()) {
            None => (res matches Err(e) && e.message@ == "Table `"@ + table.name@
                + "` must have a primary key to create a one-to-many relationship"@),
            Some(p) => if column.coltype is ForeignKey {
                res matches Ok(t) && is_link_table(
                    t,
                    table.name@,
                    table.columns.columns@[p].name@,
                    foreign_table@,
                    target_of(*column),
                )
            } else {
                res matches Err(e) && e.message@ == "Column must be a foreign key to create a one-to-many relationship"@
            },
        },
{
    let mut name = table.name.clone();
    push_str(&mut name, "_");
    push_str(&mut name, foreign_table);
    let key = Column {
        name: owned("id"),
        column_type: ColumnType::Integer,
        column_options: ColumnOptions { primary_key: true, unique: true, not_null: true, auto_increment: true },
        alias: None,
        foreign_key: None,
        table_name: None,
    };
    let pk = match table.columns.get_primary_key() {
        Some(pk) => pk,
        None => {
            let mut m = owned("Table `");
            push_str(&mut m, table.name.as_str());
            push_str(&mut m, "` must have a primary key to create a one-to-many relationship");
            return Err(DeriveError { message: m });
        },
    };
    let mut own_name = to_lowercase(table.name.as_str());
    push_str(&mut own_name, "_id");
    let mut own_target = table.name.clone();
    push_str(&mut own_target, ".");
    push_str(&mut own_target, pk.name.as_str());
    let own = reference(own_name, own_target);
    if !column.is_foreign_key() {
        return Err(DeriveError { message: owned("Column must be a foreign key to create a one-to-many relationship") });
    }
    let target = match &column.foreign_key {
        Some(t) => t.clone(),
        None => String::new(),
    };
    let mut other_name = to_lowercase(foreign_table);
    push_str(&mut other_name, "_id");
    let other = reference(other_name, target);
    let t = Table { name, columns: Columns { columns: vec![key, own, other] } };
    Ok(t)
}

} // verus!
