//! A database: a collection of tables.
use vstd::prelude::*;
use crate::text::{first_index, lemma_first_index, str_eq};
use super::columns::Column;
use super::table::{Table, TableView};
use super::{table_named, table_views};

verus! {

/// GeekORM Database
#[derive(Debug, Clone, PartialEq, Eq)]
pub struct Database {
    /// The tables in the database
    pub tables: Vec<Table>,
}

/// The predicate "the column is named `name`" (aliases are not considered).
pub open spec fn column_named(name: Seq<char>) -> spec_fn(Column) -> bool {
    |c: Column| c.name@ == name
}

/// The first table named `name`.
pub open spec fn table_of(tables: Seq<Table>, name: Seq<char>) -> Table {
    tables[first_index(table_views(tables), table_named(name)).unwrap()]
}

/// After a table is added, looking its name up finds that table, and only one
/// table has the name.
pub proof fn lemma_added_table_is_found(views: Seq<TableView>, t: TableView)
    ensures
        first_index(views.filter(|v: TableView| v.name != t.name).push(t), table_named(t.name)) == Some(
            views.filter(|v: TableView| v.name != t.name).len() as int,
        ),
{
    let kept = views.filter(|v: TableView| v.name != t.name);
    let all = kept.push(t);
    assert forall|j: int| 0 <= j < kept.len() implies !table_named(t.name)(#[trigger] all[j]) by {
        views.lemma_filter_pred(|v: TableView| v.name != t.name, j);
        assert(all[j] == kept[j]);
    }
    lemma_first_index(all, table_named(t.name), kept.len() as int);
}

impl Database {
    /// The position of the first table named `name`.
    fn table_index(&self, name: &str) -> (res: Option<usize>)
        ensures
            match first_index(table_views(self.tables@), table_named(name@)) {
                Some(i) => res.is_some() && res.unwrap() as int == i,
                None => res.is_none(),
            },
            res matches Some(i) ==> i < self.tables@.len(),
    {
        let ghost db = table_views(self.tables@);
        let mut i: usize = 0;
        while i < self.tables.len()
            invariant
                i <= self.tables.len(),
                db == table_views(self.tables@),
                forall|j: int| 0 <= j < i ==> !table_named(name@)(#[trigger] db[j]),
            decreases self.tables.len() - i,
        {
            assert(db[i as int] == self.tables@[i as int]@);
            if str_eq(self.tables[i].name.as_str(), name) {
                proof { lemma_first_index(db, table_named(name@), i as int); }
                return Some(i);
            }
            i += 1;
        }
        proof { lemma_first_index(db, table_named(name@), i as int); }
        None
    }

    /// Find a table by name
    pub fn get_table(&self, name: &str) -> (res: Option<&Table>)
        ensures
            match first_index(table_views(self.tables@), table_named(name@)) {
                Some(i) => res == Some(&self.tables@[i]),
                None => res.is_none(),
            },
    {
        match self.table_index(name) {
            Some(i) => Some(&self.tables[i]),
            None => None,
        }
    }

    /// Get the column by table and column name; the table must exist
    pub fn get_table_column(&self, table: &str, column: &str) -> (res: Option<&Column>)
        requires
            first_index(table_views(self.tables@), table_named(table@)) is Some,
        ensures
            match first_index(table_of(self.tables@, table@).columns@, column_named(column@)) {
                Some(j) => res == Some(&table_of(self.tables@, table@).columns@[j]),
                None => res.is_none(),
            },
    {
        let i = self.table_index(table).unwrap();
        let t = &self.tables[i];
        assert(*t == table_of(self.tables@, table@));
        let mut j: usize = 0;
        while j < t.columns.columns.len()
            invariant
                j <= t.columns.columns.len(),
                *t == table_of(self.tables@, table@),
                forall|k: int| 0 <= k < j ==> !column_named(column@)(#[trigger] t.columns@[k]),
            decreases t.columns.columns.len() - j,
        {
            if str_eq(t.columns.columns[j].name.as_str(), column) {
                proof { lemma_first_index(t.columns@, column_named(column@), j as int); }
                return Some(&t.columns.columns[j]);
            }
            j += 1;
        }
        proof { lemma_first_index(t.columns@, column_named(column@), j as int); }
        None
    }

    /// Adds a table, in place of every table of the same name: the others keep
    /// their order and the new table comes last.
    pub fn add(&mut self, table: Table)
        ensures
            table_views(final(self).tables@) == table_views(old(self).tables@).filter(
                |t: TableView| t.name != table.name@,
            ).push(table@),
    {
        let ghost old_views = table_views(self.tables@);
        let mut kept: Vec<Table> = Vec::new();
        let mut i: usize = 0;
        while i < self.tables.len()
            invariant
                i <= self.tables.len(),
                old_views == table_views(self.tables@),
                table_views(kept@) == old_views.take(i as int).filter(|t: TableView| t.name != table.name@),
            decreases self.tables.len() - i,
        {
            proof {
                reveal_with_fuel(Seq::filter, 1);
                assert(old_views.take(i + 1).drop_last() =~= old_views.take(i as int));
                assert(old_views.take(i + 1).last() == self.tables@[i as int]@);
            }
            if !str_eq(self.tables[i].name.as_str(), table.name.as_str()) {
                let ghost before = kept@;
                kept.push(self.tables[i].copy());
                assert(table_views(kept@) =~= table_views(before).push(self.tables@[i as int]@));
            }
            i += 1;
        }
        assert(old_views.take(old_views.len() as int) =~= old_views);
        let ghost before = kept@;
        kept.push(table);
        assert(table_views(kept@) =~= table_views(before).push(table@));
        self.tables = kept;
    }

    /// Get the list of table names
    pub fn get_table_names(&self) -> (res: Vec<&str>)
        ensures
            res@.len() == self.tables@.len(),
            forall|i: int| 0 <= i < res@.len() ==> #[trigger] res@[i]@ == self.tables@[i].name@,
    {
        let mut res: Vec<&str> = Vec::new();
        let mut i: usize = 0;
        while i < self.tables.len()
            invariant
                i <= self.tables.len(),
                res@.len() == i,
                forall|k: int| 0 <= k < i ==> #[trigger] res@[k]@ == self.tables@[k].name@,
            decreases self.tables.len() - i,
        {
            res.push(self.tables[i].name.as_str());
            i += 1;
        }
        res
    }

    /// Get the list of column names of a table; the table must exist
    pub fn get_table_columns(&self, table: &str) -> (res: Vec<&str>)
        requires
            first_index(table_views(self.tables@), table_named(table@)) is Some,
        ensures
            res@.len() == table_of(self.tables@, table@).columns@.len(),
            forall|k: int|
                0 <= k < res@.len() ==> #[trigger] res@[k]@ == table_of(self.tables@, table@).columns@[k].name@,
    {
        let i = self.table_index(table).unwrap();
        let t = &self.tables[i];
        assert(*t == table_of(self.tables@, table@));
        let mut res: Vec<&str> = Vec::new();
        let mut j: usize = 0;
        while j < t.columns.columns.len()
            invariant
                j <= t.columns.columns.len(),
                *t == table_of(self.tables@, table@),
                res@.len() == j,
                forall|k: int| 0 <= k < j ==> #[trigger] res@[k]@ == t.columns@[k].name@,
            decreases t.columns.columns.len() - j,
        {
            res.push(t.columns.columns[j].name.as_str());
            j += 1;
        }
        res
    }
}

impl Default for Database {
    fn default() -> (res: Self)
        ensures
            res.tables@ == Seq::<Table>::empty(),
    {
        Database { tables: Vec::new() }
    }
}

} // verus!
