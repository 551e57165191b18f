//! Column definitions of built queries, and their conversions to SQL strings.
//!
//! A column here is known by its alias when it has one.
use vstd::prelude::*;
use vstd::std_specs::convert::FromSpecImpl;
use crate::ToSql;
use crate::backends::QueryBackend;
use crate::builder::columntypes::{ColumnOptions as BuilderOptions, options_sql};
use crate::text::{owned, push_str, split_once, split_once_spec, str_eq};
use super::columntypes::ColumnType;

verus! {

/// Options for a column, such as primary key, unique, not null, and auto increment.
#[derive(Debug, Clone, Copy, PartialEq, Eq, Structural)]
pub struct ColumnOptions {
    /// If the column is a primary key
    pub primary_key: bool,
    /// If the column is unique
    pub unique: bool,
    /// If the column is not null
    pub not_null: bool,
    /// If the column is auto incrementing
    pub auto_increment: bool,
}

/// The same options, as the query builder holds them.
pub open spec fn builder_options(o: ColumnOptions) -> BuilderOptions {
    BuilderOptions {
        primary_key: o.primary_key,
        unique: o.unique,
        not_null: o.not_null,
        auto_increment: o.auto_increment,
    }
}

/// No option set.
pub open spec fn no_options() -> ColumnOptions {
    ColumnOptions { primary_key: false, unique: false, not_null: false, auto_increment: false }
}

/// The options as SQL: `PRIMARY KEY` (and `AUTOINCREMENT`) for a key, `NOT NULL`
/// and `UNIQUE` otherwise, separated by spaces.
pub open spec fn column_options_sql(o: ColumnOptions) -> Seq<char> {
    options_sql(builder_options(o), QueryBackend::Unknown)
}

impl Default for ColumnOptions {
    fn default() -> (res: Self)
        ensures
            res == no_options(),
    {
        ColumnOptions { primary_key: false, unique: false, not_null: false, auto_increment: false }
    }
}

impl ColumnOptions {
    /// Primary key options
    pub fn primary_key() -> (res: Self)
        ensures
            res == (ColumnOptions {
                primary_key: true,
                unique: true,
                not_null: true,
                auto_increment: true,
            }),
    {
        ColumnOptions { primary_key: true, unique: true, not_null: true, auto_increment: true }
    }

    /// Unique option
    pub fn unique() -> (res: Self)
        ensures
            res == (ColumnOptions {
                primary_key: false,
                unique: true,
                not_null: false,
                auto_increment: false,
            }),
    {
        ColumnOptions { primary_key: false, unique: true, not_null: false, auto_increment: false }
    }

    /// The options as SQL.
    pub fn sql(&self) -> (res: String)
        ensures
            res@ == column_options_sql(*self),
    {
        let o = BuilderOptions {
            primary_key: self.primary_key,
            unique: self.unique,
            not_null: self.not_null,
            auto_increment: self.auto_increment,
        };
        o.sql()
    }
}

impl ToSql for ColumnOptions {
    open spec fn sql_text(&self) -> Seq<char> {
        column_options_sql(*self)
    }

    fn sql(&self) -> (res: String) {
        ColumnOptions::sql(self)
    }
}

/// Column structure representing a single column in a table.
#[derive(Debug, Clone, PartialEq, Eq)]
pub struct Column {
    /// Name of the column
    pub name: String,
    /// Type of the column
    pub column_type: ColumnType,
    /// Options of the column
    pub column_options: ColumnOptions,
    /// Alias of the column
    pub alias: Option<String>,
    /// Foreign key target, written `table.column`
    pub foreign_key: Option<String>,
}

/// The name a column is known by: its alias when it has one, its name otherwise.
pub open spec fn known_name(c: Column) -> Seq<char> {
    match c.alias {
        Some(a) => a@,
        None => c.name@,
    }
}

/// The column as written in a column list: its name, then ` AS ` and the alias
/// when it has a non-empty alias.
pub open spec fn query_column_sql(c: Column) -> Seq<char> {
    match c.alias {
        Some(a) => if a@.len() > 0 { c.name@ + " AS "@ + a@ } else { c.name@ },
        None => c.name@,
    }
}

/// The `(table, column)` target of a foreign key, split at its first `.`.
pub open spec fn query_foreign_key_target(c: Column) -> Option<(Seq<char>, Seq<char>)> {
    match c.foreign_key {
        Some(fk) => split_once_spec(fk@, '.'),
        None => None,
    }
}

/// The column is named, or aliased, `name`.
pub open spec fn query_column_named(c: Column, name: Seq<char>) -> bool {
    c.name@ == name || (c.alias matches Some(a) && a@ == name)
}

/// A column named `name`, with no alias and no foreign key.
pub open spec fn plain_column(name: String, t: ColumnType, o: ColumnOptions) -> Column {
    Column { name, column_type: t, column_options: o, alias: None, foreign_key: None }
}

impl Column {
    /// Get the column name, using the alias if it exists.
    pub fn name(&self) -> (res: String)
        ensures
            res@ == known_name(*self),
    {
        match &self.alias {
            Some(alias) => alias.clone(),
            None => self.name.clone(),
        }
    }

    /// Create a new primary key column.
    pub fn primary_key(name: &str) -> (res: Self)
        ensures
            res.name@ == name@,
            res.column_type == ColumnType::Integer,
            res.column_options == (ColumnOptions {
                primary_key: true,
                unique: true,
                not_null: true,
                auto_increment: true,
            }),
            res.alias is None,
            res.foreign_key is None,
    {
        Column {
            name: owned(name),
            column_type: ColumnType::Integer,
            column_options: ColumnOptions::primary_key(),
            alias: None,
            foreign_key: None,
        }
    }

    /// Create a new column as a foreign key.
    pub fn new_foreign_key(name: &str, foreign_key: &str) -> (res: Self)
        ensures
            res.name@ == name@,
            res.column_type == ColumnType::ForeignKey,
            res.column_options == no_options(),
            res.alias is None,
            res.foreign_key matches Some(fk) && fk@ == foreign_key@,
    {
        Column {
            name: owned(name),
            column_type: ColumnType::ForeignKey,
            column_options: ColumnOptions::default(),
            alias: None,
            foreign_key: Some(owned(foreign_key)),
        }
    }

    /// Get the foreign key as a tuple of (table, column).
    pub fn get_foreign_key(&self) -> (res: Option<(&str, &str)>)
        ensures
            match query_foreign_key_target(*self) {
                Some((t, c)) => res.is_some() && res.unwrap().0@ == t && res.unwrap().1@ == c,
                None => res.is_none(),
            },
    {
        match &self.foreign_key {
            Some(fk) => split_once(fk.as_str(), '.'),
            None => None,
        }
    }

    /// The column as written in a column list (`name` or `name AS alias`).
    pub fn sql(&self) -> (res: String)
        ensures
            res@ == query_column_sql(*self),
    {
        let mut stream = self.name.clone();
        if let Some(alias) = &self.alias {
            if alias.as_str().unicode_len() != 0 {
                push_str(&mut stream, " AS ");
                push_str(&mut stream, alias.as_str());
            }
        }
        stream
    }

    /// Whether the column is named or aliased `name`.
    pub fn is_named(&self, name: &str) -> (res: bool)
        ensures
            res == query_column_named(*self, name@),
    {
        if str_eq(self.name.as_str(), name) {
            true
        } else {
            match &self.alias {
                Some(a) => str_eq(a.as_str(), name),
                None => false,
            }
        }
    }
}

impl ToSql for Column {
    open spec fn sql_text(&self) -> Seq<char> {
        query_column_sql(*self)
    }

    fn sql(&self) -> (res: String) {
        Column::sql(self)
    }
}

impl Default for Column {
    fn default() -> (res: Self)
        ensures
            res.name@ == Seq::<char>::empty(),
            res.column_type == ColumnType::Text,
            res.column_options == no_options(),
            res.alias is None,
            res.foreign_key is None,
    {
        Column {
            name: String::new(),
            column_type: ColumnType::Text,
            column_options: ColumnOptions::default(),
            alias: None,
            foreign_key: None,
        }
    }
}

impl From<String> for Column {
    fn from(name: String) -> (res: Self) {
        Column {
            name,
            column_type: ColumnType::Text,
            column_options: ColumnOptions::default(),
            alias: None,
            foreign_key: None,
        }
    }
}

impl FromSpecImpl<String> for Column {
    open spec fn obeys_from_spec() -> bool {
        true
    }

    open spec fn from_spec(name: String) -> Column {
        plain_column(name, ColumnType::Text, no_options())
    }
}

impl From<(String, String)> for Column {
    fn from(value: (String, String)) -> (res: Self) {
        let (name, alias) = value;
        Column {
            name,
            column_type: ColumnType::Text,
            column_options: ColumnOptions::default(),
            alias: Some(alias),
            foreign_key: None,
        }
    }
}

impl FromSpecImpl<(String, String)> for Column {
    open spec fn obeys_from_spec() -> bool {
        true
    }

    open spec fn from_spec(value: (String, String)) -> Column {
        Column {
            name: value.0,
            column_type: ColumnType::Text,
            column_options: no_options(),
            alias: Some(value.1),
            foreign_key: None,
        }
    }
}

impl From<(String, ColumnType)> for Column {
    fn from(value: (String, ColumnType)) -> (res: Self) {
        let (name, ctype) = value;
        Column {
            name,
            column_type: ctype,
            column_options: ColumnOptions::default(),
            alias: None,
            foreign_key: None,
        }
    }
}

impl FromSpecImpl<(String, ColumnType)> for Column {
    open spec fn obeys_from_spec() -> bool {
        true
    }

    open spec fn from_spec(value: (String, ColumnType)) -> Column {
        plain_column(value.0, value.1, no_options())
    }
}

impl From<(String, ColumnType, ColumnOptions)> for Column {
    fn from(value: (String, ColumnType, ColumnOptions)) -> (res: Self) {
        let (name, ctype, options) = value;
        Column { name, column_type: ctype, column_options: options, alias: None, foreign_key: None }
    }
}

impl FromSpecImpl<(String, ColumnType, ColumnOptions)> for Column {
    open spec fn obeys_from_spec() -> bool {
        true
    }

    open spec fn from_spec(value: (String, ColumnType, ColumnOptions)) -> Column {
        plain_column(value.0, value.1, value.2)
    }
}

/// Columns is a collection of `Column` definitions for a table.
#[derive(Debug, Clone, PartialEq, Eq)]
pub struct Columns {
    /// The columns, in order
    pub columns: Vec<Column>,
}

impl View for Columns {
    type V = Seq<Column>;

    open spec fn view(&self) -> Seq<Column> {
        self.columns@
    }
}

/// The columns whose type is a foreign key, in order.
pub open spec fn foreign_key_columns(cols: Seq<Column>) -> Seq<Column> {
    cols.filter(|c: Column| c.column_type == ColumnType::ForeignKey)
}

impl Columns {
    /// Create a new collection of columns.
    pub fn new(columns: Vec<Column>) -> (res: Self)
        ensures
            res@ == columns@,
    {
        Columns { columns }
    }

    /// Add a new column to the collection.
    pub fn add_column(&mut self, column: Column)
        ensures
            final(self)@ == old(self)@.push(column),
    {
        self.columns.push(column);
    }

    /// Check if the collection contains a column by name or alias.
    pub fn contains(&self, name: &str) -> (res: bool)
        ensures
            res == exists|i: int| 0 <= i < self@.len() && query_column_named(#[trigger] self@[i], name@),
    {
        let mut i: usize = 0;
        while i < self.columns.len()
            invariant
                i <= self.columns.len(),
                forall|j: int| 0 <= j < i ==> !query_column_named(#[trigger] self@[j], name@),
            decreases self.columns.len() - i,
        {
            if self.columns[i].is_named(name) {
                assert(query_column_named(self@[i as int], name@));
                return true;
            }
            i += 1;
        }
        false
    }

    /// Get all of the columns in the table that are a foreign key.
    pub fn get_foreign_keys(&self) -> (res: Vec<&Column>)
        ensures
            res@.map_values(|c: &Column| *c) == foreign_key_columns(self@),
    {
        let mut res: Vec<&Column> = Vec::new();
        let mut i: usize = 0;
        while i < self.columns.len()
            invariant
                i <= self.columns.len(),
                res@.map_values(|c: &Column| *c) == foreign_key_columns(self@.take(i as int)),
            decreases self.columns.len() - i,
        {
            let c = &self.columns[i];
            proof {
                reveal_with_fuel(Seq::filter, 1);
                assert(self@.take((i + 1) as int).drop_last() =~= self@.take(i as int));
            }
            if c.column_type == ColumnType::ForeignKey {
                res.push(c);
            }
            i += 1;
            assert(res@.map_values(|c: &Column| *c) =~= foreign_key_columns(self@.take(i as int)));
        }
        assert(self@.take(self@.len() as int) =~= self@);
        res
    }
}

impl Default for Columns {
    fn default() -> (res: Self)
        ensures
            res@ == Seq::<Column>::empty(),
    {
        Columns { columns: Vec::new() }
    }
}

} // verus!
