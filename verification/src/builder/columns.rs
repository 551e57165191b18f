//! SQL column definitions and their conversions to SQL strings.
use vstd::prelude::*;
use vstd::std_specs::convert::FromSpecImpl;
use crate::error::Error;
use crate::text::{
    first_index, join, join_seqs, lemma_first_index, owned, push_str, split_once,
    split_once_spec, string_views, str_eq,
};
use super::columntypes::{ColumnOptions, ColumnType, type_sql};
use super::{QueryBuilder, QueryBuilderView, QueryType, table_named};
use super::joins::{TableJoin, join_right_table, joins_well_formed};

verus! {

/// Column structure representing a single column in a table.
#[derive(Debug, Clone, PartialEq, Eq)]
pub struct Column {
    /// Name of the column
    pub name: String,
    /// Type of the column
    pub column_type: ColumnType,
    /// Options of the column
    pub column_options: ColumnOptions,
    /// Alias used when selecting the column
    pub alias: Option<String>,
    /// Foreign key target, written `table.column`
    pub foreign_key: Option<String>,
    /// Name of the table the column belongs to
    pub table_name: Option<String>,
}

/// A column with an empty name and every other part at its default.
pub open spec fn is_default_column(c: Column) -> bool {
    &&& c.name@ == Seq::<char>::empty()
    &&& c.column_type == ColumnType::Text
    &&& c.column_options == ColumnOptions::spec_default()
    &&& c.alias is None
    &&& c.foreign_key is None
    &&& c.table_name is None
}

/// The view of an optional string.
pub open spec fn opt_view(o: Option<String>) -> Option<Seq<char>> {
    match o {
        Some(s) => Some(s@),
        None => None,
    }
}

/// A copy of an optional string.
pub fn copy_opt(o: &Option<String>) -> (res: Option<String>)
    ensures
        res == *o,
{
    match o {
        Some(s) => Some(s.clone()),
        None => None,
    }
}

/// The column as written in a column list: its name, then ` AS ` and the alias
/// when it has a non-empty alias.
pub open spec fn column_sql(c: Column) -> Seq<char> {
    match c.alias {
        Some(a) => if a@.len() > 0 { c.name@ + " AS "@ + a@ } else { c.name@ },
        None => c.name@,
    }
}

/// `table.column` when the column knows its table, its name otherwise.
pub open spec fn column_fullname(c: Column) -> Seq<char> {
    match c.table_name {
        Some(t) => t@ + "."@ + c.name@,
        None => c.name@,
    }
}

/// The alias of the column when it has one, its name otherwise.
pub open spec fn column_name_alias(c: Column) -> Seq<char> {
    match c.alias {
        Some(a) => a@,
        None => c.name@,
    }
}

/// The column as written into a query: a definition (`name TYPE OPTIONS`) in a
/// CREATE query, its full name when the query joins tables, and its plain SQL
/// otherwise.
pub open spec fn column_query_sql(c: Column, q: QueryBuilderView) -> Seq<char> {
    if q.query_type == QueryType::Create {
        c.name@ + " "@ + type_sql(c.column_type, c.column_options, q.backend)
    } else if q.joins.len() == 0 {
        column_sql(c)
    } else {
        column_fullname(c)
    }
}

/// The column is named, or aliased, `name`.
pub open spec fn named(c: Column, name: Seq<char>) -> bool {
    c.name@ == name || opt_view(c.alias) == Some(name)
}

/// The column is a foreign key column with a target.
pub open spec fn is_foreign_key(c: Column) -> bool {
    c.column_type == ColumnType::ForeignKey && c.foreign_key is Some
}

/// The `(table, column)` target of a foreign key, split at its first `.`.
pub open spec fn foreign_key_target(c: Column) -> Option<(Seq<char>, Seq<char>)> {
    match c.foreign_key {
        Some(fk) => split_once_spec(fk@, '.'),
        None => None,
    }
}

/// A foreign key written `table.column`, with no `.` in the table name, gives
/// back that table and column.
pub proof fn lemma_foreign_key_round_trip(c: Column, table: Seq<char>, column: Seq<char>)
    requires
        opt_view(c.foreign_key) == Some(table + "."@ + column),
        !table.contains('.'),
    ensures
        foreign_key_target(c) == Some((table, column)),
{
    reveal_strlit(".");
    assert(table + "."@ + column =~= table + seq!['.'] + column);
    crate::text::lemma_split_once_of_join(table, '.', column);
}

impl Column {
    /// Get the column name
    pub fn name(&self) -> (res: String)
        ensures
            res@ == self.name@,
    {
        self.name.clone()
    }

    /// Full column name
    pub fn fullname(&self) -> (res: String)
        ensures
            res@ == column_fullname(*self),
    {
        match &self.table_name {
            Some(table_name) => {
                let mut s = table_name.clone();
                push_str(&mut s, ".");
                push_str(&mut s, self.name.as_str());
                s
            },
            None => self.name.clone(),
        }
    }

    /// The alias of the column, or its name when it has none
    pub fn name_alias(&self) -> (res: String)
        ensures
            res@ == column_name_alias(*self),
    {
        match &self.alias {
            Some(alias) => alias.clone(),
            None => self.name.clone(),
        }
    }

    /// Create a new primary key column.
    pub fn primary_key(name: &str) -> (res: Self)
        ensures
            res.name@ == name@,
            res.column_type == ColumnType::Integer,
            res.column_options == ColumnOptions::spec_primary_key(),
            res.alias is None,
            res.foreign_key is None,
            res.table_name is None,
    {
        Column {
            name: owned(name),
            column_type: ColumnType::Integer,
            column_options: ColumnOptions::primary_key(),
            alias: None,
            foreign_key: None,
            table_name: None,
        }
    }

    /// Create a new column as a foreign key.
    pub fn new_foreign_key(name: &str, foreign_key: &str) -> (res: Self)
        ensures
            res.name@ == name@,
            res.column_type == ColumnType::ForeignKey,
            res.column_options == ColumnOptions::spec_default(),
            res.alias is None,
            opt_view(res.foreign_key) == Some(foreign_key@),
            res.table_name is None,
    {
        Column {
            name: owned(name),
            column_type: ColumnType::ForeignKey,
            column_options: ColumnOptions::default(),
            alias: None,
            foreign_key: Some(owned(foreign_key)),
            table_name: None,
        }
    }

    /// Get the foreign key as a tuple of (table, column).
    pub fn get_foreign_key(&self) -> (res: Option<(&str, &str)>)
        ensures
            match foreign_key_target(*self) {
                Some((t, c)) => res.is_some() && res.unwrap().0@ == t && res.unwrap().1@ == c,
                None => res.is_none(),
            },
    {
        match &self.foreign_key {
            Some(fk) => split_once(fk.as_str(), '.'),
            None => None,
        }
    }

    /// The column as written in a column list (`name` or `name AS alias`).
    pub fn sql(&self) -> (res: String)
        ensures
            res@ == column_sql(*self),
    {
        let mut stream = self.name.clone();
        if let Some(alias) = &self.alias {
            if alias.as_str().unicode_len() != 0 {
                push_str(&mut stream, " AS ");
                push_str(&mut stream, alias.as_str());
            }
        }
        stream
    }

    /// The column as written into a query.
    pub fn to_sql(&self, query: &QueryBuilder) -> (res: Result<String, Error>)
        ensures
            res matches Ok(s) && s@ == column_query_sql(*self, query@),
    {
        if query.query_type == QueryType::Create {
            let mut stream = self.name.clone();
            push_str(&mut stream, " ");
            let col_type = self.column_type.type_to_sql(&self.column_options, query.backend);
            push_str(&mut stream, col_type.as_str());
            Ok(stream)
        } else if query.joins.joins.len() == 0 {
            Ok(self.sql())
        } else {
            Ok(self.fullname())
        }
    }

    /// Whether the column is named or aliased `name`.
    pub fn is_named(&self, name: &str) -> (res: bool)
        ensures
            res == named(*self, name@),
    {
        if str_eq(self.name.as_str(), name) {
            true
        } else {
            match &self.alias {
                Some(a) => str_eq(a.as_str(), name),
                None => false,
            }
        }
    }

    /// A copy of the column.
    pub fn copy(&self) -> (res: Self)
        ensures
            res == *self,
    {
        Column {
            name: self.name.clone(),
            column_type: self.column_type,
            column_options: self.column_options,
            alias: copy_opt(&self.alias),
            foreign_key: copy_opt(&self.foreign_key),
            table_name: copy_opt(&self.table_name),
        }
    }

    /// A column named `name` with every other part left at its default.
    pub fn named_column(name: String) -> (res: Self)
        ensures
            res.name == name,
            res.column_type == ColumnType::Text,
            res.column_options == ColumnOptions::spec_default(),
            res.alias is None,
            res.foreign_key is None,
            res.table_name is None,
    {
        Column {
            name,
            column_type: ColumnType::Text,
            column_options: ColumnOptions::default(),
            alias: None,
            foreign_key: None,
            table_name: None,
        }
    }
}

impl ColumnOptions {
    /// The options of a primary key column.
    pub open spec fn spec_primary_key() -> ColumnOptions {
        ColumnOptions { primary_key: true, unique: true, not_null: true, auto_increment: true }
    }

    /// The options of a unique column.
    pub open spec fn spec_unique() -> ColumnOptions {
        ColumnOptions { primary_key: false, unique: true, not_null: true, auto_increment: false }
    }

    /// No options set.
    pub open spec fn spec_default() -> ColumnOptions {
        ColumnOptions { primary_key: false, unique: false, not_null: false, auto_increment: false }
    }
}

impl Default for Column {
    fn default() -> (res: Self)
        ensures
            res.name@ == Seq::<char>::empty(),
            res.column_type == ColumnType::Text,
            res.column_options == ColumnOptions::spec_default(),
            res.alias is None,
            res.foreign_key is None,
            res.table_name is None,
    {
        Column::named_column(String::new())
    }
}

/// Columns is a collection of `Column` definitions for a table.
#[derive(Debug, Clone, PartialEq, Eq)]
pub struct Columns {
    /// The columns, in order
    pub columns: Vec<Column>,
}

impl View for Columns {
    type V = Seq<Column>;

    open spec fn view(&self) -> Seq<Column> {
        self.columns@
    }
}

/// The predicate "is named or aliased `name`".
pub open spec fn named_pred(name: Seq<char>) -> spec_fn(Column) -> bool {
    |c: Column| named(c, name)
}

/// The columns that are foreign keys, in order.
pub open spec fn foreign_keys(cols: Seq<Column>) -> Seq<Column> {
    cols.filter(|c: Column| is_foreign_key(c))
}

/// The plain names of the columns, separated by `, `.
pub open spec fn columns_names_sql(cols: Seq<Column>) -> Seq<char> {
    join_seqs(cols.map_values(|c: Column| c.name@), ", "@)
}

/// The columns as written into a query, in order.
pub open spec fn columns_query_parts(cols: Seq<Column>, q: QueryBuilderView) -> Seq<Seq<char>> {
    cols.map_values(|c: Column| column_query_sql(c, q))
}

/// The columns of the joined tables, as written into a query: for each join, the
/// columns of its right table when the query knows that table.
pub open spec fn join_columns_parts(joins: Seq<TableJoin>, q: QueryBuilderView) -> Seq<Seq<char>>
    decreases joins.len(),
{
    if joins.len() == 0 {
        Seq::empty()
    } else {
        join_columns_parts(joins.drop_last(), q) + match first_index(
            q.database,
            table_named(join_right_table(joins.last())),
        ) {
            Some(i) => columns_query_parts(q.database[i].columns, q),
            None => Seq::empty(),
        }
    }
}

/// The column list of a query: the columns, then those of the joined tables,
/// separated by `, `.
pub open spec fn columns_list_sql(cols: Seq<Column>, q: QueryBuilderView) -> Seq<char> {
    join_seqs(columns_query_parts(cols, q) + join_columns_parts(q.joins, q), ", "@)
}

/// Appends the columns, as written into the query, to `parts`.
fn push_column_parts(parts: &mut Vec<String>, cols: &Columns, query: &QueryBuilder)
    ensures
        string_views(final(parts)@) == string_views(old(parts)@) + columns_query_parts(cols@, query@),
{
    let ghost start = string_views(parts@);
    let mut i: usize = 0;
    while i < cols.columns.len()
        invariant
            i <= cols.columns.len(),
            string_views(parts@) == start + columns_query_parts(cols@.take(i as int), query@),
        decreases cols.columns.len() - i,
    {
        let s = cols.columns[i].to_sql(query).unwrap();
        let ghost before = parts@;
        parts.push(s);
        assert(string_views(parts@) =~= string_views(before).push(s@));
        assert(columns_query_parts(cols@.take((i + 1) as int), query@) =~= columns_query_parts(
            cols@.take(i as int),
            query@,
        ).push(column_query_sql(cols@[i as int], query@)));
        i += 1;
    }
    assert(cols@.take(cols@.len() as int) =~= cols@);
}

impl Columns {
    /// The columns as written into a query, followed by the columns of the tables
    /// it joins, separated by `, `.
    pub fn to_sql(&self, query: &QueryBuilder) -> (res: Result<String, Error>)
        requires
            joins_well_formed(query@.joins),
        ensures
            res matches Ok(s) && s@ == columns_list_sql(self@, query@),
    {
        let mut parts: Vec<String> = Vec::new();
        push_column_parts(&mut parts, self, query);
        let ghost own = string_views(parts@);
        let mut i: usize = 0;
        while i < query.joins.joins.len()
            invariant
                i <= query.joins.joins.len(),
                joins_well_formed(query@.joins),
                string_views(parts@) == own + join_columns_parts(query@.joins.take(i as int), query@),
            decreases query.joins.joins.len() - i,
        {
            let join = &query.joins.joins[i];
            assert(query@.joins.take((i + 1) as int).drop_last() =~= query@.joins.take(i as int));
            assert(query@.joins[i as int] == *join);
            let right = join.right();
            let (right_table, _) = split_once(right.as_str(), '.').unwrap();
            match query.find_table_index(right_table) {
                Some(t) => {
                    push_column_parts(&mut parts, &query.database[t].columns, query);
                },
                None => {},
            }
            proof {
                assert(own + join_columns_parts(query@.joins.take((i + 1) as int), query@) =~= own
                    + join_columns_parts(query@.joins.take(i as int), query@) + (
                match first_index(query@.database, table_named(join_right_table(*join))) {
                    Some(k) => columns_query_parts(query@.database[k].columns, query@),
                    None => Seq::empty(),
                }));
            }
            i += 1;
        }
        assert(query@.joins.take(query@.joins.len() as int) =~= query@.joins);
        Ok(join(&parts, ", "))
    }

    /// Create a new collection of columns.
    pub fn new(columns: Vec<Column>) -> (res: Self)
        ensures
            res@ == columns@,
    {
        Columns { columns }
    }

    /// Add a new column to the collection.
    pub fn add_column(&mut self, column: Column)
        ensures
            final(self)@ == old(self)@.push(column),
    {
        self.columns.push(column);
    }

    /// Check if the collection contains a column by name or alias.
    pub fn contains(&self, name: &str) -> (res: bool)
        ensures
            res == exists|i: int| 0 <= i < self@.len() && named(#[trigger] self@[i], name@),
    {
        self.find(name).is_some()
    }

    /// The position of the first column named or aliased `name`.
    pub fn find(&self, name: &str) -> (res: Option<usize>)
        ensures
            match first_index(self@, named_pred(name@)) {
                Some(i) => res.is_some() && res.unwrap() as int == i,
                None => res.is_none(),
            },
            res matches Some(i) ==> i < self@.len() && named(self@[i as int], name@),
            res is None ==> forall|i: int| 0 <= i < self@.len() ==> !named(#[trigger] self@[i], name@),
    {
        let mut i: usize = 0;
        while i < self.columns.len()
            invariant
                i <= self.columns.len(),
                forall|j: int| 0 <= j < i ==> !named(#[trigger] self@[j], name@),
            decreases self.columns.len() - i,
        {
            if self.columns[i].is_named(name) {
                proof {
                    assert forall|j: int| 0 <= j < i implies !named_pred(name@)(
                        #[trigger] self@[j],
                    ) by {}
                    lemma_first_index(self@, named_pred(name@), i as int);
                }
                return Some(i);
            }
            i += 1;
        }
        proof {
            assert forall|j: int| 0 <= j < i implies !named_pred(name@)(#[trigger] self@[j]) by {}
            lemma_first_index(self@, named_pred(name@), i as int);
        }
        None
    }

    /// Get all of the columns in the table that are a foreign key.
    pub fn get_foreign_keys(&self) -> (res: Vec<&Column>)
        ensures
            res@.map_values(|c: &Column| *c) == foreign_keys(self@),
    {
        let mut res: Vec<&Column> = Vec::new();
        let mut i: usize = 0;
        while i < self.columns.len()
            invariant
                i <= self.columns.len(),
                res@.map_values(|c: &Column| *c) == foreign_keys(self@.take(i as int)),
            decreases self.columns.len() - i,
        {
            let c = &self.columns[i];
            proof {
                reveal_with_fuel(Seq::filter, 1);
                assert(self@.take((i + 1) as int).drop_last() =~= self@.take(i as int));
            }
            if c.column_type == ColumnType::ForeignKey && c.foreign_key.is_some() {
                res.push(c);
            }
            i += 1;
            assert(res@.map_values(|c: &Column| *c) =~= foreign_keys(self@.take(i as int)));
        }
        assert(self@.take(self@.len() as int) =~= self@);
        res
    }

    /// The plain column names, separated by `, `.
    pub fn sql(&self) -> (res: String)
        ensures
            res@ == columns_names_sql(self@),
    {
        let mut names: Vec<String> = Vec::new();
        let mut i: usize = 0;
        while i < self.columns.len()
            invariant
                i <= self.columns.len(),
                names@.len() == i,
                forall|k: int| 0 <= k < i ==> #[trigger] names@[k]@ == self@[k].name@,
            decreases self.columns.len() - i,
        {
            names.push(self.columns[i].name.clone());
            i += 1;
        }
        assert(string_views(names@) =~= self@.map_values(|c: Column| c.name@));
        join(&names, ", ")
    }

    /// A copy of the collection.
    pub fn copy(&self) -> (res: Self)
        ensures
            res@ == self@,
    {
        let mut columns: Vec<Column> = Vec::new();
        let mut i: usize = 0;
        while i < self.columns.len()
            invariant
                i <= self.columns.len(),
                columns@ == self@.take(i as int),
            decreases self.columns.len() - i,
        {
            columns.push(self.columns[i].copy());
            i += 1;
            assert(columns@ =~= self@.take(i as int));
        }
        assert(self@.take(self@.len() as int) =~= self@);
        Columns { columns }
    }
}

impl Default for Columns {
    fn default() -> (res: Self)
        ensures
            res@ == Seq::<Column>::empty(),
    {
        Columns { columns: Vec::new() }
    }
}

impl From<Vec<Column>> for Columns {
    fn from(value: Vec<Column>) -> (res: Self) {
        Columns { columns: value }
    }
}

impl FromSpecImpl<Vec<Column>> for Columns {
    open spec fn obeys_from_spec() -> bool {
        true
    }

    open spec fn from_spec(value: Vec<Column>) -> Columns {
        Columns { columns: value }
    }
}

impl From<String> for Column {
    fn from(name: String) -> (res: Self) {
        Column::named_column(name)
    }
}

impl FromSpecImpl<String> for Column {
    open spec fn obeys_from_spec() -> bool {
        true
    }

    open spec fn from_spec(name: String) -> Column {
        Column {
            name,
            column_type: ColumnType::Text,
            column_options: ColumnOptions::spec_default(),
            alias: None,
            foreign_key: None,
            table_name: None,
        }
    }
}

impl From<(String, String)> for Column {
    fn from(value: (String, String)) -> (res: Self) {
        let (name, alias) = value;
        let mut c = Column::named_column(name);
        c.alias = Some(alias);
        c
    }
}

impl FromSpecImpl<(String, String)> for Column {
    open spec fn obeys_from_spec() -> bool {
        true
    }

    open spec fn from_spec(value: (String, String)) -> Column {
        Column {
            name: value.0,
            column_type: ColumnType::Text,
            column_options: ColumnOptions::spec_default(),
            alias: Some(value.1),
            foreign_key: None,
            table_name: None,
        }
    }
}

impl From<(String, ColumnType)> for Column {
    fn from(value: (String, ColumnType)) -> (res: Self) {
        let (name, ctype) = value;
        let mut c = Column::named_column(name);
        c.column_type = ctype;
        c
    }
}

impl FromSpecImpl<(String, ColumnType)> for Column {
    open spec fn obeys_from_spec() -> bool {
        true
    }

    open spec fn from_spec(value: (String, ColumnType)) -> Column {
        Column {
            name: value.0,
            column_type: value.1,
            column_options: ColumnOptions::spec_default(),
            alias: None,
            foreign_key: None,
            table_name: None,
        }
    }
}

impl From<(String, ColumnType, ColumnOptions)> for Column {
    fn from(value: (String, ColumnType, ColumnOptions)) -> (res: Self) {
        let (name, ctype, options) = value;
        let mut c = Column::named_column(name);
        c.column_type = ctype;
        c.column_options = options;
        c
    }
}

impl FromSpecImpl<(String, ColumnType, ColumnOptions)> for Column {
    open spec fn obeys_from_spec() -> bool {
        true
    }

    open spec fn from_spec(value: (String, ColumnType, ColumnOptions)) -> Column {
        Column {
            name: value.0,
            column_type: value.1,
            column_options: value.2,
            alias: None,
            foreign_key: None,
            table_name: None,
        }
    }
}

impl From<(String, ColumnType, String)> for Column {
    fn from(value: (String, ColumnType, String)) -> (res: Self) {
        let (name, ctype, foreign_key) = value;
        let mut c = Column::named_column(name);
        c.column_type = ctype;
        c.foreign_key = Some(foreign_key);
        c
    }
}

impl FromSpecImpl<(String, ColumnType, String)> for Column {
    open spec fn obeys_from_spec() -> bool {
        true
    }

    open spec fn from_spec(value: (String, ColumnType, String)) -> Column {
        Column {
            name: value.0,
            column_type: value.1,
            column_options: ColumnOptions::spec_default(),
            alias: None,
            foreign_key: Some(value.2),
            table_name: None,
        }
    }
}

} // verus!
