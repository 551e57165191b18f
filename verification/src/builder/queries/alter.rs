//! ALTER TABLE statements.
use vstd::prelude::*;
use crate::error::Error;
use crate::query::Query;
use crate::text::{owned, push_str};
use crate::values::values::{ValueBindingMode, Values};
use crate::values::value::ValueView;
use crate::builder::QueryType;
use crate::builder::columns::{Column, is_default_column, opt_view};
use crate::builder::columntypes::{ColumnOptions, ColumnType};
use crate::builder::table::{Table, TableView};

verus! {

/// What an ALTER query changes.
#[derive(Debug, Clone, Copy, PartialEq, Eq, Structural)]
pub enum AlterMode {
    /// Add a table
    AddTable,
    /// Rename a table
    RenameTable,
    /// Drop a table
    DropTable,
    /// Add a column
    AddColumn,
    /// Rename a column
    RenameColumn,
    /// Drop a column
    DropColumn,
    /// Skip
    Skip,
    /// Unknown
    Unknown,
}

impl Default for AlterMode {
    fn default() -> (res: Self)
        ensures
            res == AlterMode::Unknown,
    {
        AlterMode::Unknown
    }
}

/// Alter query builder.
#[derive(Debug, Clone)]
pub struct AlterQuery {
    /// What the query changes
    pub mode: AlterMode,
    /// The table altered
    pub table: Table,
    /// The column altered, where the mode concerns a column
    pub column: Column,
    /// The new name, for the renaming modes
    pub rename: Option<String>,
}

/// The mathematical content of an [`AlterQuery`].
pub struct AlterQueryView {
    /// What the query changes
    pub mode: AlterMode,
    /// The table altered
    pub table: TableView,
    /// The column altered
    pub column: Column,
    /// The new name
    pub rename: Option<Seq<char>>,
}

impl View for AlterQuery {
    type V = AlterQueryView;

    open spec fn view(&self) -> AlterQueryView {
        AlterQueryView {
            mode: self.mode,
            table: self.table@,
            column: self.column,
            rename: opt_view(self.rename),
        }
    }
}

/// The type of a column added to an existing table. A NOT NULL column gets a
/// default, so that the rows already there stay valid.
pub open spec fn alter_type_sql(t: ColumnType, o: ColumnOptions) -> Seq<char> {
    match t {
        ColumnType::Text => if o.not_null { "TEXT NOT NULL DEFAULT ''"@ } else { "TEXT"@ },
        ColumnType::Integer | ColumnType::Boolean => if o.not_null {
            "INTEGER NOT NULL DEFAULT 0"@
        } else {
            "INTEGER"@
        },
        ColumnType::Blob => if o.not_null { "BLOB NOT NULL DEFAULT ''"@ } else { "BLOB"@ },
        _ => "BEANS"@,
    }
}

/// The statement of an ALTER query.
///
/// Dropping a table is `DROP TABLE IF EXISTS`; every other mode is an
/// `ALTER TABLE` statement, empty after the table name for the modes that do
/// nothing. A rename without a new name renames a table to the empty name and a
/// column to its own name.
pub open spec fn alter_sql(a: AlterQueryView) -> Seq<char> {
    let head = "ALTER TABLE "@ + a.table.name + " "@;
    let c = a.column.name@;
    match a.mode {
        AlterMode::AddTable => head + "ADD COLUMN "@ + c + ";"@,
        AlterMode::RenameTable => head + "RENAME TO "@ + (match a.rename {
            Some(n) => n,
            None => Seq::empty(),
        }) + ";"@,
        AlterMode::DropTable => "DROP TABLE IF EXISTS "@ + a.table.name + ";"@,
        AlterMode::AddColumn => head + "ADD COLUMN "@ + c + " "@ + alter_type_sql(
            a.column.column_type,
            a.column.column_options,
        ) + ";"@,
        AlterMode::RenameColumn => head + "RENAME COLUMN "@ + c + " TO "@ + (match a.rename {
            Some(n) => n,
            None => c,
        }) + ";"@,
        AlterMode::DropColumn => head + "DROP COLUMN "@ + c + ";"@,
        AlterMode::Skip | AlterMode::Unknown => head + ";"@,
    }
}

/// The built form of an ALTER statement: its SQL, typed `Alter`, without values.
pub open spec fn is_alter_query(q: Query, sql: Seq<char>) -> bool {
    &&& q.query@ == sql
    &&& q.query_type == QueryType::Alter
    &&& q.values@ == Seq::<(Seq<char>, ValueView)>::empty()
    &&& q.params@ == Seq::<(Seq<char>, ValueView)>::empty()
    &&& q.values.binding_mode == ValueBindingMode::Placeholder
    &&& q.params.binding_mode == ValueBindingMode::Placeholder
}

impl AlterQuery {
    /// New Alter query: unknown mode, empty table and column, no new name.
    pub fn new() -> (res: Self)
        ensures
            res.mode == AlterMode::Unknown,
            res.table@.name == Seq::<char>::empty(),
            res.table@.columns == Seq::<Column>::empty(),
            is_default_column(res.column),
            res.rename is None,
    {
        AlterQuery {
            mode: AlterMode::Unknown,
            table: Table::default(),
            column: Column::default(),
            rename: None,
        }
    }

    /// Set mode
    pub fn mode(&mut self, mode: AlterMode) -> (ret: &mut Self)
        ensures
            (*ret)@ == (AlterQueryView { mode, ..old(self)@ }),
            *final(self) == *final(ret),
    {
        self.mode = mode;
        self
    }

    /// Set table
    pub fn table(&mut self, table: &Table) -> (ret: &mut Self)
        ensures
            (*ret)@ == (AlterQueryView { table: table@, ..old(self)@ }),
            *final(self) == *final(ret),
    {
        self.table = table.copy();
        self
    }

    /// Set column
    pub fn column(&mut self, column: &Column) -> (ret: &mut Self)
        ensures
            (*ret)@ == (AlterQueryView { column: *column, ..old(self)@ }),
            *final(self) == *final(ret),
    {
        self.column = column.copy();
        self
    }

    /// Set the new name
    pub fn rename(&mut self, name: &str) -> (ret: &mut Self)
        ensures
            (*ret)@ == (AlterQueryView { rename: Some(name@), ..old(self)@ }),
            *final(self) == *final(ret),
    {
        self.rename = Some(owned(name));
        self
    }

    /// The SQL of the query.
    pub fn sql(&self) -> (res: String)
        ensures
            res@ == alter_sql(self@),
    {
        let c = self.column.name.as_str();
        match self.mode {
            AlterMode::DropTable => {
                let mut s = owned("DROP TABLE IF EXISTS ");
                push_str(&mut s, self.table.name.as_str());
                push_str(&mut s, ";");
                return s;
            },
            _ => {},
        }
        let mut s = owned("ALTER TABLE ");
        push_str(&mut s, self.table.name.as_str());
        push_str(&mut s, " ");
        match self.mode {
            AlterMode::AddTable => {
                push_str(&mut s, "ADD COLUMN ");
                push_str(&mut s, c);
            },
            AlterMode::RenameTable => {
                push_str(&mut s, "RENAME TO ");
                match &self.rename {
                    Some(n) => push_str(&mut s, n.as_str()),
                    None => {},
                }
            },
            AlterMode::AddColumn => {
                push_str(&mut s, "ADD COLUMN ");
                push_str(&mut s, c);
                push_str(&mut s, " ");
                let t = self.to_sql_alter(&self.column.column_type, &self.column.column_options);
                match t {
                    Ok(t) => push_str(&mut s, t.as_str()),
                    Err(_) => {},
                }
            },
            AlterMode::RenameColumn => {
                push_str(&mut s, "RENAME COLUMN ");
                push_str(&mut s, c);
                push_str(&mut s, " TO ");
                match &self.rename {
                    Some(n) => push_str(&mut s, n.as_str()),
                    None => push_str(&mut s, c),
                }
            },
            AlterMode::DropColumn => {
                push_str(&mut s, "DROP COLUMN ");
                push_str(&mut s, c);
            },
            _ => {},
        }
        push_str(&mut s, ";");
        proof {
            reveal_strlit("ALTER TABLE ");
            reveal_strlit(" ");
        }
        s
    }

    /// The type of a column added to an existing table.
    pub fn to_sql_alter(&self, column_type: &ColumnType, options: &ColumnOptions) -> (res: Result<String, Error>)
        ensures
            res matches Ok(s) && s@ == alter_type_sql(*column_type, *options),
    {
        let s = match column_type {
            ColumnType::Text => if options.not_null {
                owned("TEXT NOT NULL DEFAULT ''")
            } else {
                owned("TEXT")
            },
            ColumnType::Integer | ColumnType::Boolean => if options.not_null {
                owned("INTEGER NOT NULL DEFAULT 0")
            } else {
                owned("INTEGER")
            },
            ColumnType::Blob => if options.not_null {
                owned("BLOB NOT NULL DEFAULT ''")
            } else {
                owned("BLOB")
            },
            _ => owned("BEANS"),
        };
        Ok(s)
    }

    /// Build the query: always succeeds, with the SQL of the statement.
    pub fn build(&self) -> (res: Result<Query, Error>)
        ensures
            res matches Ok(q) && is_alter_query(q, alter_sql(self@)),
    {
        Ok(Query { query: self.sql(), query_type: QueryType::Alter, values: Values::new(), params: Values::new() })
    }

    /// Adds the column to the table.
    pub fn add_table(table: &Table, column: &Column) -> (res: Result<Query, Error>)
        ensures
            res matches Ok(q) && is_alter_query(
                q,
                "ALTER TABLE "@ + table.name@ + " "@ + "ADD COLUMN "@ + column.name@ + ";"@,
            ),
    {
        let a = AlterQuery { mode: AlterMode::AddTable, table: table.copy(), column: column.copy(), rename: None };
        a.build()
    }

    /// Renames the table.
    pub fn rename_table(table: &Table, name: &str) -> (res: Result<Query, Error>)
        ensures
            res matches Ok(q) && is_alter_query(
                q,
                "ALTER TABLE "@ + table.name@ + " "@ + "RENAME TO "@ + name@ + ";"@,
            ),
    {
        let a = AlterQuery {
            mode: AlterMode::RenameTable,
            table: table.copy(),
            column: Column::default(),
            rename: Some(owned(name)),
        };
        a.build()
    }

    /// Drops the table if it exists.
    pub fn drop_table(table: &Table) -> (res: Result<Query, Error>)
        ensures
            res matches Ok(q) && is_alter_query(q, "DROP TABLE IF EXISTS "@ + table.name@ + ";"@),
    {
        let a = AlterQuery {
            mode: AlterMode::DropTable,
            table: table.copy(),
            column: Column::default(),
            rename: None,
        };
        a.build()
    }

    /// Renames a column of the table.
    pub fn rename_column(table: &Table, column: &Column, name: &str) -> (res: Result<Query, Error>)
        ensures
            res matches Ok(q) && is_alter_query(
                q,
                "ALTER TABLE "@ + table.name@ + " "@ + "RENAME COLUMN "@ + column.name@ + " TO "@ + name@
                    + ";"@,
            ),
    {
        let a = AlterQuery {
            mode: AlterMode::RenameColumn,
            table: table.copy(),
            column: column.copy(),
            rename: Some(owned(name)),
        };
        a.build()
    }

    /// Drops a column of the table.
    pub fn drop_column(table: &Table, column: &Column) -> (res: Result<Query, Error>)
        ensures
            res matches Ok(q) && is_alter_query(
                q,
                "ALTER TABLE "@ + table.name@ + " "@ + "DROP COLUMN "@ + column.name@ + ";"@,
            ),
    {
        let a = AlterQuery {
            mode: AlterMode::DropColumn,
            table: table.copy(),
            column: column.copy(),
            rename: None,
        };
        a.build()
    }
}

impl Default for AlterQuery {
    fn default() -> (res: Self)
        ensures
            res.mode == AlterMode::Unknown,
            res.table@.name == Seq::<char>::empty(),
            res.table@.columns == Seq::<Column>::empty(),
            is_default_column(res.column),
            res.rename is None,
    {
        AlterQuery::new()
    }
}

} // verus!
