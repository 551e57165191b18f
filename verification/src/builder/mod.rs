//! The query builder: collects the parts of a query and checks them against the
//! tables it knows.
use vstd::prelude::*;
use crate::backends::QueryBackend;
use crate::error::{Error, error_message};
use crate::text::{
    first_index, lemma_first_index, owned, push_str, split_once, split_once_spec, string_views,
    str_eq,
};
use crate::values::value::{Value, ValueView};
use crate::values::values::{ValueBindingMode, Values};

pub mod columns;
pub mod columntypes;
pub mod conditions;
pub mod database;
pub mod joins;
pub mod laws;
pub mod ordering;
pub mod pagination;
pub mod queries;
pub mod samples;
pub mod table;

use self::columns::{named, Column};
use self::conditions::{QueryCondition, WhereClause, WhereCondition};
use self::joins::{TableJoin, TableJoins, join_left, join_right};
use self::ordering::{OrderClause, QueryOrder};
use self::pagination::Page;
use self::table::{Table, TableView, has_column, is_primary_key_pred, references_pred};

verus! {

/// Query Type enum
#[derive(Debug, Clone, Copy, PartialEq, Eq, Structural)]
pub enum QueryType {
    /// Create Query
    Create,
    /// Count Query
    Count,
    /// Select Query
    Select,
    /// Insert Query
    Insert,
    /// Update Query
    Update,
    /// Delete Query
    Delete,
    /// Alter Query
    Alter,
    /// Transaction Query
    Transaction,
    /// Unknown Query
    Unknown,
}

impl Default for QueryType {
    fn default() -> (res: Self)
        ensures
            res == QueryType::Unknown,
    {
        QueryType::Unknown
    }
}

/// Query struct
#[derive(Debug, Clone, PartialEq)]
pub struct QueryBuilder {
    /// Query Backend
    pub backend: QueryBackend,
    /// Query type
    pub query_type: QueryType,
    /// Tables to query; the first one is the table of the query
    pub database: Vec<Table>,
    /// These are the columns for INSERT and UPDATE queries
    pub columns: Vec<String>,
    /// Query where conditions
    pub where_clause: WhereClause,
    /// Whether the last entry of the where clause already has its AND / OR
    pub where_condition_last: bool,
    /// Joined tables
    pub joins: TableJoins,
    /// Order by conditions
    pub order_by: OrderClause,
    /// Limit the number of rows returned
    pub limit: Option<usize>,
    /// Offset the starting point of the rows returned
    pub offset: Option<usize>,
    /// Page of rows to return
    pub page: Option<Page>,
    /// Values of the query
    pub values: Values,
    /// Errors found while building
    pub errors: Vec<String>,
}

/// The mathematical content of a [`QueryBuilder`].
pub struct QueryBuilderView {
    /// Query Backend
    pub backend: QueryBackend,
    /// Query type
    pub query_type: QueryType,
    /// Tables to query
    pub database: Seq<TableView>,
    /// Columns for INSERT and UPDATE queries
    pub columns: Seq<Seq<char>>,
    /// Where clause entries
    pub where_clause: Seq<(Seq<char>, QueryCondition, Option<WhereCondition>)>,
    /// Whether the last entry of the where clause already has its AND / OR
    pub where_condition_last: bool,
    /// Joined tables
    pub joins: Seq<TableJoin>,
    /// Order by items
    pub order_by: Seq<(String, QueryOrder)>,
    /// Limit
    pub limit: Option<usize>,
    /// Offset
    pub offset: Option<usize>,
    /// Page
    pub page: Option<Page>,
    /// Values
    pub values: Seq<(Seq<char>, ValueView)>,
    /// Binding mode of the values
    pub binding_mode: ValueBindingMode,
    /// Error messages
    pub errors: Seq<Seq<char>>,
}

/// The views of tables.
pub open spec fn table_views(db: Seq<Table>) -> Seq<TableView> {
    db.map_values(|t: Table| t@)
}

impl View for QueryBuilder {
    type V = QueryBuilderView;

    open spec fn view(&self) -> QueryBuilderView {
        QueryBuilderView {
            backend: self.backend,
            query_type: self.query_type,
            database: table_views(self.database@),
            columns: string_views(self.columns@),
            where_clause: self.where_clause@,
            where_condition_last: self.where_condition_last,
            joins: self.joins.joins@,
            order_by: self.order_by.columns@,
            limit: self.limit,
            offset: self.offset,
            page: self.page,
            values: self.values@,
            binding_mode: self.values.binding_mode,
            errors: string_views(self.errors@),
        }
    }
}

/// A builder with nothing collected yet, for a query type.
pub open spec fn fresh(t: QueryType) -> QueryBuilderView {
    QueryBuilderView {
        backend: QueryBackend::Unknown,
        query_type: t,
        database: Seq::empty(),
        columns: Seq::empty(),
        where_clause: Seq::empty(),
        where_condition_last: false,
        joins: Seq::empty(),
        order_by: Seq::empty(),
        limit: None,
        offset: None,
        page: None,
        values: Seq::empty(),
        binding_mode: ValueBindingMode::Placeholder,
        errors: Seq::empty(),
    }
}

/// The message of a builder error raised at `location`.
pub open spec fn builder_error(message: Seq<char>, location: Seq<char>) -> Seq<char> {
    "Failed to build SQL query: "@ + message + " ("@ + location + ")"@
}

/// The builder with one more error.
pub open spec fn with_error(v: QueryBuilderView, message: Seq<char>, location: Seq<char>) -> QueryBuilderView {
    QueryBuilderView { errors: v.errors.push(builder_error(message, location)), ..v }
}

/// The predicate "the table is named `name`".
pub open spec fn table_named(name: Seq<char>) -> spec_fn(TableView) -> bool {
    |t: TableView| t.name == name
}

/// The query has a table and its first table has a column named or aliased `column`.
pub open spec fn default_table_has(v: QueryBuilderView, column: Seq<char>) -> bool {
    v.database.len() > 0 && has_column(v.database[0], column)
}

/// `w` is the builder `v` after joining `child`: the first table is joined
/// through its first foreign key to `child` on `child`'s primary key, and `child`
/// is added to the tables of the query. Without a first table, a foreign key to
/// `child` or a primary key of `child`, an error is recorded instead.
pub open spec fn join_spec(v: QueryBuilderView, child: TableView, w: QueryBuilderView) -> bool {
    if v.database.len() == 0 {
        w == with_error(v, "No table specified"@, "join"@)
    } else {
        let parent = v.database[0];
        match first_index(parent.columns, references_pred(child.name)) {
            None => w == with_error(
                v,
                "Table `"@ + parent.name + "` has no foreign key to `"@ + child.name + "`"@,
                "join"@,
            ),
            Some(f) => match first_index(child.columns, is_primary_key_pred()) {
                None => w == with_error(v, "Table `"@ + child.name + "` has no primary key"@, "join"@),
                Some(p) => {
                    &&& w.joins.len() == v.joins.len() + 1
                    &&& w.joins.drop_last() == v.joins
                    &&& w.joins.last() is Join
                    &&& join_left(w.joins.last()) == parent.name + "."@ + parent.columns[f].name@
                    &&& join_right(w.joins.last()) == child.name + "."@ + child.columns[p].name@
                    &&& w == (QueryBuilderView { joins: w.joins, database: v.database.push(child), ..v })
                },
            },
        }
    }
}

/// The table and column a WHERE entry on `column` refers to, or the reason it
/// cannot be resolved. A `table.column` name refers to that table; a plain name to
/// the first table of the query.
pub open spec fn where_target(db: Seq<TableView>, column: Seq<char>) -> Result<(TableView, Seq<char>), Seq<char>> {
    match split_once_spec(column, '.') {
        Some((ft, fc)) => match first_index(db, table_named(ft)) {
            Some(i) => Ok((db[i], fc)),
            None => Err("Table `"@ + ft + "` does not exist"@),
        },
        None => if db.len() > 0 {
            Ok((db[0], column))
        } else {
            Err("No table specified"@)
        },
    }
}

/// The message for a column missing from a table.
pub open spec fn missing_column(column: Seq<char>, table: Seq<char>) -> Seq<char> {
    "Column `"@ + column + "` does not exist in table `"@ + table + "`"@
}

/// The where clause with `c` joining its last entry to the next one.
pub open spec fn joined_last(
    w: Seq<(Seq<char>, QueryCondition, Option<WhereCondition>)>,
    c: WhereCondition,
) -> Seq<(Seq<char>, QueryCondition, Option<WhereCondition>)> {
    w.update(w.len() - 1, (w.last().0, w.last().1, Some(c)))
}

/// The builder after a WHERE entry `column OP ?` with its value. When the column
/// cannot be resolved, or its table has no such column, an error is recorded and
/// nothing else changes. Otherwise an entry that follows another without its own
/// AND / OR is joined to it with AND.
pub open spec fn add_where_spec(
    v: QueryBuilderView,
    column: Seq<char>,
    condition: QueryCondition,
    value: ValueView,
) -> QueryBuilderView {
    match where_target(v.database, column) {
        Err(msg) => with_error(v, msg, "where_eq"@),
        Ok((t, name)) => if !has_column(t, name) {
            with_error(v, missing_column(name, t.name), "where_eq"@)
        } else {
            let w = if v.where_clause.len() > 0 && !v.where_condition_last {
                joined_last(v.where_clause, WhereCondition::And)
            } else {
                v.where_clause
            };
            QueryBuilderView {
                where_clause: w.push((column, condition, None)),
                values: v.values.push((column, value)),
                where_condition_last: false,
                ..v
            }
        },
    }
}

/// The builder after `and()` / `or()`: the last entry is joined with `c`; with
/// no entry yet an error is recorded.
pub open spec fn condition_spec(v: QueryBuilderView, c: WhereCondition) -> QueryBuilderView {
    if v.where_clause.len() == 0 {
        with_error(v, "Cannot push condition to empty where clause"@, "push_condition"@)
    } else {
        QueryBuilderView {
            where_clause: joined_last(v.where_clause, c),
            where_condition_last: true,
            ..v
        }
    }
}

/// The first table of the query has a primary key, if there is a first table.
pub open spec fn primary_key_known(v: QueryBuilderView) -> bool {
    v.database.len() > 0 ==> first_index(v.database[0].columns, is_primary_key_pred()) is Some
}

/// The name of the primary key of the first table.
pub open spec fn primary_key_name(v: QueryBuilderView) -> Seq<char> {
    v.database[0].columns[first_index(v.database[0].columns, is_primary_key_pred()).unwrap()].name@
}

/// The builder after `where_primary_key(value)`.
pub open spec fn where_primary_key_spec(v: QueryBuilderView, value: ValueView) -> QueryBuilderView {
    if v.database.len() == 0 {
        with_error(v, "No table specified"@, "where_primary_key"@)
    } else {
        add_where_spec(v, primary_key_name(v), QueryCondition::Eq, value)
    }
}

/// The builder after one `filter` field: `=name` compares for equality, `~name`
/// with LIKE, `!name` for inequality, and a plain name for equality followed by OR.
pub open spec fn filter_step(v: QueryBuilderView, field: (Seq<char>, ValueView)) -> QueryBuilderView {
    let (name, value) = field;
    if name.len() > 0 && name[0] == '=' {
        add_where_spec(v, name.skip(1), QueryCondition::Eq, value)
    } else if name.len() > 0 && name[0] == '~' {
        add_where_spec(v, name.skip(1), QueryCondition::Like, value)
    } else if name.len() > 0 && name[0] == '!' {
        add_where_spec(v, name.skip(1), QueryCondition::Ne, value)
    } else {
        condition_spec(add_where_spec(v, name, QueryCondition::Eq, value), WhereCondition::Or)
    }
}

/// The builder after `filter(fields)`: the fields applied in order.
pub open spec fn filter_spec(v: QueryBuilderView, fields: Seq<(Seq<char>, ValueView)>) -> QueryBuilderView
    decreases fields.len(),
{
    if fields.len() == 0 {
        v
    } else {
        filter_step(filter_spec(v, fields.drop_last()), fields.last())
    }
}

/// The builder after `order_by(column, order)`: recorded when the first table has
/// the column, an error when it does not, nothing without a table.
pub open spec fn order_by_spec(v: QueryBuilderView, column: String, order: QueryOrder) -> QueryBuilderView {
    if v.database.len() == 0 {
        v
    } else if has_column(v.database[0], column@) {
        QueryBuilderView { order_by: v.order_by.push((column, order)), ..v }
    } else {
        with_error(v, missing_column(column@, v.database[0].name), "order_by"@)
    }
}

/// The builder after `limit(n)`: a zero limit is an error.
pub open spec fn limit_spec(v: QueryBuilderView, limit: usize) -> QueryBuilderView {
    if limit != 0 {
        QueryBuilderView { limit: Some(limit), ..v }
    } else {
        with_error(v, "Limit cannot be 0"@, "limit"@)
    }
}

impl Default for QueryBuilder {
    fn default() -> (res: Self)
        ensures
            res@ == fresh(QueryType::Unknown),
    {
        QueryBuilder::with_type(QueryType::Unknown)
    }
}

impl QueryBuilder {
    /// A builder for a query type with nothing collected yet.
    pub fn with_type(query_type: QueryType) -> (res: Self)
        ensures
            res@ == fresh(query_type),
    {
        let res = QueryBuilder {
            backend: QueryBackend::Unknown,
            query_type,
            database: Vec::new(),
            columns: Vec::new(),
            where_clause: WhereClause::new(),
            where_condition_last: false,
            joins: TableJoins::new(),
            order_by: OrderClause::new(),
            limit: None,
            offset: None,
            page: None,
            values: Values::new(),
            errors: Vec::new(),
        };
        assert(res@.database =~= Seq::<TableView>::empty());
        assert(res@.columns =~= Seq::<Seq<char>>::empty());
        assert(res@.errors =~= Seq::<Seq<char>>::empty());
        res
    }

    /// Count query builder
    pub fn count() -> (res: Self)
        ensures
            res@ == fresh(QueryType::Count),
    {
        QueryBuilder::with_type(QueryType::Count)
    }

    /// Select query builder
    pub fn select() -> (res: Self)
        ensures
            res@ == fresh(QueryType::Select),
    {
        QueryBuilder::with_type(QueryType::Select)
    }

    /// Build a create query
    pub fn create() -> (res: Self)
        ensures
            res@ == fresh(QueryType::Create),
    {
        QueryBuilder::with_type(QueryType::Create)
    }

    /// Build a "get all rows" query
    pub fn all() -> (res: Self)
        ensures
            res@ == fresh(QueryType::Select),
    {
        QueryBuilder::with_type(QueryType::Select)
    }

    /// Build an insert query
    pub fn insert() -> (res: Self)
        ensures
            res@ == fresh(QueryType::Insert),
    {
        QueryBuilder::with_type(QueryType::Insert)
    }

    /// Build an update query
    pub fn update() -> (res: Self)
        ensures
            res@ == fresh(QueryType::Update),
    {
        QueryBuilder::with_type(QueryType::Update)
    }

    /// Build a delete query
    pub fn delete() -> (res: Self)
        ensures
            res@ == fresh(QueryType::Delete),
    {
        QueryBuilder::with_type(QueryType::Delete)
    }

    /// Sets the Backend for the query
    pub fn backend(&mut self, backend: QueryBackend) -> (ret: &mut Self)
        ensures
            (*ret)@ == (QueryBuilderView { backend, ..old(self)@ }),
            *final(self) == *final(ret),
    {
        self.backend = backend;
        self
    }

    /// Set the tables to query
    pub fn database(&mut self, database: Vec<Table>) -> (ret: &mut Self)
        ensures
            (*ret)@ == (QueryBuilderView { database: table_views(database@), ..old(self)@ }),
            *final(self) == *final(ret),
    {
        self.database = database;
        self
    }

    /// Add a table to query; the first table added is the table of the query
    pub fn table(&mut self, table: &Table) -> (ret: &mut Self)
        ensures
            (*ret)@ == (QueryBuilderView { database: old(self)@.database.push(table@), ..old(self)@ }),
            *final(self) == *final(ret),
    {
        let t = table.copy();
        self.database.push(t);
        assert(self@.database =~= old(self)@.database.push(table@));
        self
    }

    /// Join a table to the first table of the query, through the first table's
    /// foreign key to it, on its primary key
    pub fn join(&mut self, table: &Table) -> (ret: &mut Self)
        ensures
            join_spec(old(self)@, table@, (*ret)@),
            *final(self) == *final(ret),
    {
        if self.database.len() == 0 {
            let m = owned("No table specified");
            self.record(&m, "join");
            return self;
        }
        let ghost parent = self@.database[0];
        assert(parent == self.database@[0]@);
        let sides: Result<(String, String), String> = {
            let parent_table = &self.database[0];
            match parent_table.get_foreign_key(table.name.clone()) {
                None => {
                    let mut m = owned("Table `");
                    push_str(&mut m, parent_table.name.as_str());
                    push_str(&mut m, "` has no foreign key to `");
                    push_str(&mut m, table.name.as_str());
                    push_str(&mut m, "`");
                    Err(m)
                },
                Some(fk) => match table.get_primary_key() {
                    None => {
                        let mut m = owned("Table `");
                        push_str(&mut m, table.name.as_str());
                        push_str(&mut m, "` has no primary key");
                        Err(m)
                    },
                    Some(pk) => {
                        let mut left = parent_table.name.clone();
                        push_str(&mut left, ".");
                        push_str(&mut left, fk.name.as_str());
                        let mut right = table.name.clone();
                        push_str(&mut right, ".");
                        push_str(&mut right, pk.name.as_str());
                        Ok((left, right))
                    },
                },
            }
        };
        match sides {
            Ok((left, right)) => {
                self.joins.push(TableJoin::Join { left, right });
                self.database.push(table.copy());
                assert(self@.database =~= old(self)@.database.push(table@));
                assert(self@.joins.drop_last() =~= old(self)@.joins);
            },
            Err(m) => {
                self.record(&m, "join");
            },
        }
        self
    }

    /// Add columns to the query
    pub fn columns(&mut self, columns: Vec<String>) -> (ret: &mut Self)
        ensures
            (*ret)@ == (QueryBuilderView { columns: string_views(columns@), ..old(self)@ }),
            *final(self) == *final(ret),
    {
        self.columns = columns;
        self
    }

    /// Add a value to the list of values for parameterized queries
    pub fn add_value(&mut self, column: &str, value: Value) -> (ret: &mut Self)
        ensures
            (*ret)@ == (QueryBuilderView { values: old(self)@.values.push((column@, value@)), ..old(self)@ }),
            *final(self) == *final(ret),
    {
        self.values.push(column, value);
        self
    }

    /// Set how the values are bound in the statement
    pub fn set_value_mode(&mut self, mode: ValueBindingMode) -> (ret: &mut Self)
        ensures
            (*ret)@ == (QueryBuilderView { binding_mode: mode, ..old(self)@ }),
            *final(self) == *final(ret),
    {
        self.values.binding_mode = mode;
        self
    }

    /// Set internal error
    pub fn set_error(&mut self, error: Error)
        ensures
            final(self)@ == (QueryBuilderView { errors: old(self)@.errors.push(error_message(error)), ..old(self)@ }),
    {
        let m = error.message();
        self.errors.push(m);
        assert(self@.errors =~= old(self)@.errors.push(error_message(error)));
    }

    fn push_condition(&mut self, c: WhereCondition)
        ensures
            final(self)@ == condition_spec(old(self)@, c),
    {
        match self.where_clause.push_condition(c) {
            Ok(_) => {
                self.where_condition_last = true;
            },
            Err(e) => {
                self.set_error(e);
            },
        }
    }

    /// Add an AND condition to the where clause
    pub fn and(&mut self) -> (ret: &mut Self)
        ensures
            (*ret)@ == condition_spec(old(self)@, WhereCondition::And),
            *final(self) == *final(ret),
    {
        self.push_condition(WhereCondition::And);
        self
    }

    /// Add an OR condition to the where clause
    pub fn or(&mut self) -> (ret: &mut Self)
        ensures
            (*ret)@ == condition_spec(old(self)@, WhereCondition::Or),
            *final(self) == *final(ret),
    {
        self.push_condition(WhereCondition::Or);
        self
    }

    /// The position of the first table named `name`.
    pub fn find_table_index(&self, name: &str) -> (res: Option<usize>)
        ensures
            match first_index(self@.database, table_named(name@)) {
                Some(i) => res.is_some() && res.unwrap() as int == i,
                None => res.is_none(),
            },
            res matches Some(i) ==> i < self.database@.len() && self@.database[i as int] == self.database@[i as int]@,
    {
        let mut i: usize = 0;
        while i < self.database.len()
            invariant
                i <= self.database.len(),
                forall|j: int| 0 <= j < i ==> !table_named(name@)(#[trigger] self@.database[j]),
            decreases self.database.len() - i,
        {
            assert(self@.database[i as int] == self.database@[i as int]@);
            if str_eq(self.database[i].name.as_str(), name) {
                proof { lemma_first_index(self@.database, table_named(name@), i as int); }
                return Some(i);
            }
            i += 1;
        }
        proof { lemma_first_index(self@.database, table_named(name@), i as int); }
        None
    }

    /// Find a table in the database
    pub fn find_table(&self, name: &str) -> (res: Option<Table>)
        ensures
            match first_index(self@.database, table_named(name@)) {
                Some(i) => res.is_some() && res.unwrap()@ == self@.database[i],
                None => res.is_none(),
            },
    {
        match self.find_table_index(name) {
            Some(i) => Some(self.database[i].copy()),
            None => None,
        }
    }

    /// The table of the query: the first table added.
    pub fn find_table_default(&self) -> (res: Option<Table>)
        ensures
            self@.database.len() > 0 ==> res.is_some() && res.unwrap()@ == self@.database[0],
            self@.database.len() == 0 ==> res.is_none(),
    {
        if self.database.len() == 0 {
            None
        } else {
            Some(self.database[0].copy())
        }
    }

    /// The table of the query, when it has a column named or aliased `column`.
    pub fn find_column(&self, column: &str) -> (res: Option<Table>)
        ensures
            default_table_has(self@, column@) ==> (res matches Some(t) && t@ == self@.database[0]),
            !default_table_has(self@, column@) ==> res is None,
    {
        match self.find_table_default() {
            Some(table) => {
                if table.is_valid_column(column) {
                    Some(table)
                } else {
                    None
                }
            },
            None => None,
        }
    }

    /// Whether `column` names a column of the query: of its first table, or else
    /// of a table named `self`; an error when neither table exists.
    pub fn validate_table_column(&self, column: &str) -> (res: Result<bool, Error>)
        ensures
            default_table_has(self@, column@) ==> res == Ok::<bool, Error>(true),
            !default_table_has(self@, column@) ==> match first_index(self@.database, table_named("self"@)) {
                Some(i) => res == Ok::<bool, Error>(has_column(self@.database[i], column@)),
                None => (res matches Err(Error::QueryBuilderError { error, location })
                    && error@ == "No table specified"@ && location@ == "validate_table_column"@),
            },
    {
        if let Some(table) = self.find_column(column) {
            Ok(table.is_valid_column(column))
        } else if let Some(table) = self.find_table("self") {
            Ok(table.is_valid_column(column))
        } else {
            Err(Error::query_builder("No table specified", "validate_table_column"))
        }
    }

    /// Records an error raised at `location`.
    fn record(&mut self, message: &String, location: &str)
        ensures
            final(self)@ == with_error(old(self)@, message@, location@),
    {
        let e = Error::query_builder(message.as_str(), location);
        self.set_error(e);
    }

    /// The underlying function to add a where clause
    fn add_where(&mut self, column: &str, condition: QueryCondition, value: Value)
        ensures
            final(self)@ == add_where_spec(old(self)@, column@, condition, value@),
    {
        let (index, column_name) = match split_once(column, '.') {
            Some((ftable, fcolumn)) => {
                match self.find_table_index(ftable) {
                    Some(i) => (i, fcolumn),
                    None => {
                        let mut m = owned("Table `");
                        push_str(&mut m, ftable);
                        push_str(&mut m, "` does not exist");
                        self.record(&m, "where_eq");
                        return;
                    },
                }
            },
            None => {
                if self.database.len() == 0 {
                    let m = owned("No table specified");
                    self.record(&m, "where_eq");
                    return;
                }
                (0, column)
            },
        };
        assert(self@.database[index as int] == self.database@[index as int]@);
        if !self.database[index].is_valid_column(column_name) {
            let mut m = owned("Column `");
            push_str(&mut m, column_name);
            push_str(&mut m, "` does not exist in table `");
            push_str(&mut m, self.database[index].name.as_str());
            push_str(&mut m, "`");
            self.record(&m, "where_eq");
            return;
        }
        assert(has_column(self@.database[index as int], column_name@));
        let ghost w0 = self@.where_clause;
        if self.where_clause.conditions.len() != 0 && !self.where_condition_last {
            let r = self.where_clause.push_condition(WhereCondition::And);
            assert(self@.where_clause == joined_last(w0, WhereCondition::And));
        }
        self.where_clause.push(owned(column), condition);
        self.values.push(column, value);
        self.where_condition_last = false;
    }

    /// Where clause for equals
    pub fn where_eq(&mut self, column: &str, value: Value) -> (ret: &mut Self)
        ensures
            (*ret)@ == add_where_spec(old(self)@, column@, QueryCondition::Eq, value@),
            *final(self) == *final(ret),
    {
        self.add_where(column, QueryCondition::Eq, value);
        self
    }

    /// Where clause for not equals
    pub fn where_ne(&mut self, column: &str, value: Value) -> (ret: &mut Self)
        ensures
            (*ret)@ == add_where_spec(old(self)@, column@, QueryCondition::Ne, value@),
            *final(self) == *final(ret),
    {
        self.add_where(column, QueryCondition::Ne, value);
        self
    }

    /// Where clause for like
    pub fn where_like(&mut self, column: &str, value: Value) -> (ret: &mut Self)
        ensures
            (*ret)@ == add_where_spec(old(self)@, column@, QueryCondition::Like, value@),
            *final(self) == *final(ret),
    {
        self.add_where(column, QueryCondition::Like, value);
        self
    }

    /// Where clause for greater than
    pub fn where_gt(&mut self, column: &str, value: Value) -> (ret: &mut Self)
        ensures
            (*ret)@ == add_where_spec(old(self)@, column@, QueryCondition::Gt, value@),
            *final(self) == *final(ret),
    {
        self.add_where(column, QueryCondition::Gt, value);
        self
    }

    /// Where clause for less than
    pub fn where_lt(&mut self, column: &str, value: Value) -> (ret: &mut Self)
        ensures
            (*ret)@ == add_where_spec(old(self)@, column@, QueryCondition::Lt, value@),
            *final(self) == *final(ret),
    {
        self.add_where(column, QueryCondition::Lt, value);
        self
    }

    /// Where clause for greater than or equal to
    pub fn where_gte(&mut self, column: &str, value: Value) -> (ret: &mut Self)
        ensures
            (*ret)@ == add_where_spec(old(self)@, column@, QueryCondition::Gte, value@),
            *final(self) == *final(ret),
    {
        self.add_where(column, QueryCondition::Gte, value);
        self
    }

    /// Where clause for less than or equal to
    pub fn where_lte(&mut self, column: &str, value: Value) -> (ret: &mut Self)
        ensures
            (*ret)@ == add_where_spec(old(self)@, column@, QueryCondition::Lte, value@),
            *final(self) == *final(ret),
    {
        self.add_where(column, QueryCondition::Lte, value);
        self
    }

    /// Where Primary Key
    pub fn where_primary_key(&mut self, value: Value) -> (ret: &mut Self)
        requires
            primary_key_known(old(self)@),
        ensures
            (*ret)@ == where_primary_key_spec(old(self)@, value@),
            *final(self) == *final(ret),
    {
        if self.database.len() == 0 {
            let m = owned("No table specified");
            self.record(&m, "where_primary_key");
        } else {
            assert(self@.database[0] == self.database@[0]@);
            let pk = self.database[0].get_primary_key().unwrap().name.clone();
            self.add_where(pk.as_str(), QueryCondition::Eq, value);
        }
        self
    }

    fn filter_one(&mut self, field: &str, value: Value)
        ensures
            final(self)@ == filter_step(old(self)@, (field@, value@)),
    {
        let len = field.unicode_len();
        let first = if len > 0 { field.get_char(0) } else { ' ' };
        if len > 0 && first == '=' {
            let rest = field.substring_char(1, len);
            assert(rest@ =~= field@.skip(1));
            self.add_where(rest, QueryCondition::Eq, value);
        } else if len > 0 && first == '~' {
            let rest = field.substring_char(1, len);
            assert(rest@ =~= field@.skip(1));
            self.add_where(rest, QueryCondition::Like, value);
        } else if len > 0 && first == '!' {
            let rest = field.substring_char(1, len);
            assert(rest@ =~= field@.skip(1));
            self.add_where(rest, QueryCondition::Ne, value);
        } else {
            self.add_where(field, QueryCondition::Eq, value);
            self.push_condition(WhereCondition::Or);
        }
    }

    /// Filter the query by multiple fields
    pub fn filter(&mut self, fields: Vec<(&str, Value)>) -> (ret: &mut Self)
        ensures
            (*ret)@ == filter_spec(old(self)@, fields@.map_values(|f: (&str, Value)| (f.0@, f.1@))),
            *final(self) == *final(ret),
    {
        let ghost fs = fields@.map_values(|f: (&str, Value)| (f.0@, f.1@));
        let mut i: usize = 0;
        while i < fields.len()
            invariant
                i <= fields.len(),
                fs == fields@.map_values(|f: (&str, Value)| (f.0@, f.1@)),
                self@ == filter_spec(old(self)@, fs.take(i as int)),
            decreases fields.len() - i,
        {
            let (field, value) = &fields[i];
            let v = value.copy();
            assert(fs.take((i + 1) as int).drop_last() =~= fs.take(i as int));
            assert(fs[i as int] == (field@, value@));
            self.filter_one(field, v);
            i += 1;
        }
        assert(fs.take(fields@.len() as int) =~= fs);
        self
    }

    /// Order the query by a particular column of its table
    pub fn order_by(&mut self, column: &str, order: QueryOrder) -> (ret: &mut Self)
        ensures
            exists|c: String| c@ == column@ && (*ret)@ == order_by_spec(old(self)@, c, order),
            *final(self) == *final(ret),
    {
        let c = owned(column);
        if self.database.len() != 0 {
            assert(self@.database[0] == self.database@[0]@);
            let valid = self.database[0].is_valid_column(column);
            assert(valid == has_column(self@.database[0], c@));
            if valid {
                self.order_by.push(c, order);
            } else {
                let mut m = owned("Column `");
                push_str(&mut m, column);
                push_str(&mut m, "` does not exist in table `");
                push_str(&mut m, self.database[0].name.as_str());
                push_str(&mut m, "`");
                self.record(&m, "order_by");
            }
        }
        assert(self@ == order_by_spec(old(self)@, c, order));
        self
    }

    /// Add a limit to the query; a zero limit is an error
    pub fn limit(&mut self, limit: usize) -> (ret: &mut Self)
        ensures
            (*ret)@ == limit_spec(old(self)@, limit),
            *final(self) == *final(ret),
    {
        if limit != 0 {
            self.limit = Some(limit);
        } else {
            let m = owned("Limit cannot be 0");
            self.record(&m, "limit");
        }
        self
    }

    /// Add an offset to the query
    pub fn offset(&mut self, offset: usize) -> (ret: &mut Self)
        ensures
            (*ret)@ == (QueryBuilderView { offset: Some(offset), ..old(self)@ }),
            *final(self) == *final(ret),
    {
        self.offset = Some(offset);
        self
    }

    /// Select a page of rows
    pub fn page(&mut self, page: Page) -> (ret: &mut Self)
        ensures
            (*ret)@ == (QueryBuilderView { page: Some(page), ..old(self)@ }),
            *final(self) == *final(ret),
    {
        self.page = Some(page);
        self
    }
}

} // verus!
