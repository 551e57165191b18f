//! Tables and table expressions.
use vstd::prelude::*;
use crate::text::{first_index, lemma_first_index, owned, push_str, str_eq};
use super::columns::{Column, Columns, named, named_pred, opt_view, foreign_key_target};

verus! {

/// Table structure representing a database table.
#[derive(Debug, Clone, PartialEq, Eq)]
pub struct Table {
    /// Name of the table
    pub name: String,
    /// Columns in the table
    pub columns: Columns,
}

/// The mathematical content of a [`Table`].
pub struct TableView {
    /// Name of the table
    pub name: Seq<char>,
    /// Columns in the table
    pub columns: Seq<Column>,
}

impl View for Table {
    type V = TableView;

    open spec fn view(&self) -> TableView {
        TableView { name: self.name@, columns: self.columns@ }
    }
}

/// Whether a table has a column named or aliased `name`.
pub open spec fn has_column(t: TableView, name: Seq<char>) -> bool {
    exists|i: int| 0 <= i < t.columns.len() && named(#[trigger] t.columns[i], name)
}

/// The predicate "is a primary key column".
pub open spec fn is_primary_key_pred() -> spec_fn(Column) -> bool {
    |c: Column| c.column_options.primary_key
}

/// The column is a foreign key to `target`, given either as a table name or as
/// `table.column`.
pub open spec fn references(c: Column, target: Seq<char>) -> bool {
    match foreign_key_target(c) {
        Some((t, col)) => t == target || t + "."@ + col == target,
        None => false,
    }
}

/// The predicate "is a foreign key to `target`".
pub open spec fn references_pred(target: Seq<char>) -> spec_fn(Column) -> bool {
    |c: Column| references(c, target)
}

/// The column `c` of table `t` (same definition, table name recorded).
pub open spec fn in_table(c: Column, t: Seq<char>, d: Column) -> bool {
    &&& d.name == c.name
    &&& d.column_type == c.column_type
    &&& d.column_options == c.column_options
    &&& d.alias == c.alias
    &&& d.foreign_key == c.foreign_key
    &&& opt_view(d.table_name) == Some(t)
}

impl Table {
    /// Create a new table with the given name and columns; each column records the
    /// table's name.
    pub fn new(name: &str, columns: Columns) -> (res: Self)
        ensures
            res.name@ == name@,
            res.columns@.len() == columns@.len(),
            forall|i: int|
                0 <= i < columns@.len() ==> in_table(columns@[i], name@, #[trigger] res.columns@[i]),
    {
        let mut new_columns: Vec<Column> = Vec::new();
        let mut i: usize = 0;
        while i < columns.columns.len()
            invariant
                i <= columns.columns.len(),
                new_columns@.len() == i,
                forall|j: int|
                    0 <= j < i ==> in_table(columns@[j], name@, #[trigger] new_columns@[j]),
            decreases columns.columns.len() - i,
        {
            let mut col = columns.columns[i].copy();
            col.table_name = Some(owned(name));
            new_columns.push(col);
            i += 1;
        }
        Table { name: owned(name), columns: Columns { columns: new_columns } }
    }

    /// Add a column to the table; the added column records the table's name.
    pub fn add_column(&mut self, column: &Column)
        ensures
            final(self).name == old(self).name,
            final(self).columns@.len() == old(self).columns@.len() + 1,
            final(self).columns@.drop_last() == old(self).columns@,
            in_table(*column, old(self).name@, final(self).columns@.last()),
    {
        let mut col = column.copy();
        col.table_name = Some(self.name.clone());
        self.columns.columns.push(col);
        assert(self.columns@.drop_last() =~= old(self).columns@);
    }

    /// Is the table column valid?
    pub fn is_valid_column(&self, name: &str) -> (res: bool)
        ensures
            res == has_column(self@, name@),
    {
        self.columns.contains(name)
    }

    /// Get the primary key column, if it exists.
    pub fn get_primary_key(&self) -> (res: Option<&Column>)
        ensures
            match first_index(self.columns@, is_primary_key_pred()) {
                Some(i) => res == Some(&self.columns@[i]),
                None => res.is_none(),
            },
    {
        let mut i: usize = 0;
        while i < self.columns.columns.len()
            invariant
                i <= self.columns.columns.len(),
                forall|j: int| 0 <= j < i ==> !is_primary_key_pred()(#[trigger] self.columns@[j]),
            decreases self.columns.columns.len() - i,
        {
            if self.columns.columns[i].column_options.primary_key {
                proof { lemma_first_index(self.columns@, is_primary_key_pred(), i as int); }
                return Some(&self.columns.columns[i]);
            }
            i += 1;
        }
        proof { lemma_first_index(self.columns@, is_primary_key_pred(), i as int); }
        None
    }

    /// Get a foreign key column by the table (or `table.column`) it refers to.
    pub fn get_foreign_key(&self, name: String) -> (res: Option<&Column>)
        ensures
            match first_index(self.columns@, references_pred(name@)) {
                Some(i) => res == Some(&self.columns@[i]),
                None => res.is_none(),
            },
    {
        let mut i: usize = 0;
        while i < self.columns.columns.len()
            invariant
                i <= self.columns.columns.len(),
                forall|j: int| 0 <= j < i ==> !references_pred(name@)(#[trigger] self.columns@[j]),
            decreases self.columns.columns.len() - i,
        {
            let col = &self.columns.columns[i];
            let found = match col.get_foreign_key() {
                Some((table, column)) => {
                    let mut full = owned(table);
                    push_str(&mut full, ".");
                    push_str(&mut full, column);
                    str_eq(table, name.as_str()) || str_eq(full.as_str(), name.as_str())
                },
                None => false,
            };
            if found {
                proof { lemma_first_index(self.columns@, references_pred(name@), i as int); }
                return Some(col);
            }
            i += 1;
        }
        proof { lemma_first_index(self.columns@, references_pred(name@), i as int); }
        None
    }

    /// Get a column by its name or alias
    pub fn find_column(&self, name: &str) -> (res: Option<&Column>)
        ensures
            match first_index(self.columns@, named_pred(name@)) {
                Some(i) => res == Some(&self.columns@[i]),
                None => res.is_none(),
            },
    {
        proof { crate::text::lemma_first_index_found(self.columns@, named_pred(name@)); }
        match self.columns.find(name) {
            Some(i) => Some(&self.columns.columns[i]),
            None => None,
        }
    }

    /// Get the full name of a column in the format "table.column"
    pub fn get_fullname(&self, column: &str) -> (res: String)
        ensures
            res@ == self.name@ + "."@ + column@,
    {
        let mut s = self.name.clone();
        push_str(&mut s, ".");
        push_str(&mut s, column);
        s
    }

    /// A copy of the table.
    pub fn copy(&self) -> (res: Self)
        ensures
            res@ == self@,
    {
        Table { name: self.name.clone(), columns: self.columns.copy() }
    }
}

impl Default for Table {
    fn default() -> (res: Self)
        ensures
            res.name@ == Seq::<char>::empty(),
            res.columns@ == Seq::<Column>::empty(),
    {
        Table { name: String::new(), columns: Columns { columns: Vec::new() } }
    }
}

/// Table expression for SQL queries.
#[derive(Debug, Clone, PartialEq, Eq)]
pub struct TableExpr {
    /// Table name
    pub name: String,
    /// Alias for the table
    pub alias: Option<String>,
}

/// The table expression as SQL: `name` or `name AS alias`.
pub open spec fn table_expr_sql(t: TableExpr) -> Seq<char> {
    match t.alias {
        Some(a) => t.name@ + " AS "@ + a@,
        None => t.name@,
    }
}

/// `s` followed by a space, unless it is empty or already ends with one.
pub open spec fn spaced(s: Seq<char>) -> Seq<char> {
    if s.len() > 0 && s.last() != ' ' { s + " "@ } else { s }
}

/// Whether the string is non-empty and does not end with a space.
pub fn needs_space(s: &String) -> (res: bool)
    ensures
        res == (s@.len() > 0 && s@.last() != ' '),
{
    let len = s.as_str().unicode_len();
    if len == 0 {
        false
    } else {
        s.as_str().get_char(len - 1) != ' '
    }
}

/// Appends a space unless the string is empty or already ends with one.
pub fn push_space(s: &mut String)
    ensures
        final(s)@ == spaced(old(s)@),
{
    if needs_space(s) {
        push_str(s, " ");
    }
}

impl TableExpr {
    /// Create a new table expression
    pub fn new(name: &str) -> (res: Self)
        ensures
            res.name@ == name@,
            res.alias is None,
    {
        TableExpr { name: owned(name), alias: None }
    }

    /// Set the alias for the table expression
    pub fn alias(&mut self, alias: String)
        ensures
            final(self).name == old(self).name,
            final(self).alias == Some(alias),
    {
        self.alias = Some(alias);
    }

    /// Generate the SQL for the table expression
    pub fn sql(&self) -> (res: String)
        ensures
            res@ == table_expr_sql(*self),
    {
        let mut s = self.name.clone();
        if let Some(alias) = &self.alias {
            push_str(&mut s, " AS ");
            push_str(&mut s, alias.as_str());
        }
        s
    }

    /// Appends `FROM` and the table expression, after a space when needed.
    pub fn to_sql_stream(&self, stream: &mut String)
        ensures
            final(stream)@ == spaced(old(stream)@) + "FROM "@ + table_expr_sql(*self),
    {
        push_space(stream);
        push_str(stream, "FROM ");
        let s = self.sql();
        push_str(stream, s.as_str());
    }
}

} // verus!
