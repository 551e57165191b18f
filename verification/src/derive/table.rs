//! The table a struct derives.
use vstd::prelude::*;
use crate::builder::columns::{Column, Columns, opt_view};
use crate::builder::columntypes::ColumnOptions;
use crate::builder::table::Table;
use crate::text::owned;
use vstd::string::*;
use super::attr::{GeekAttribute, GeekAttributeKeys, GeekAttributeValue};
use super::column::{ColumnDerive, ColumnsDerive};
use super::columntypes::column_type_of;

verus! {

/// The table of a derived struct.
#[derive(Debug)]
pub struct TableDerive {
    /// Name of the table
    pub name: String,
    /// Columns of the table
    pub columns: ColumnsDerive,
    /// Database name
    pub database: Option<String>,
}

/// The table name after the struct's attributes: the string of the last `key`
/// or `rename` attribute that has one, or `name`.
pub open spec fn renamed(name: Seq<char>, attrs: Seq<GeekAttribute>) -> Seq<char>
    decreases attrs.len(),
{
    if attrs.len() == 0 {
        name
    } else {
        let before = renamed(name, attrs.drop_last());
        match (attrs.last().key, attrs.last().value) {
            (Some(GeekAttributeKeys::Key), Some(GeekAttributeValue::String(n))) => n@,
            (Some(GeekAttributeKeys::Rename), Some(GeekAttributeValue::String(n))) => n@,
            _ => before,
        }
    }
}

/// The query builder's column for a derived column of table `table`: same name,
/// type and options, its alias when it has a non-empty one, its foreign key.
pub open spec fn builder_column(c: ColumnDerive, table: Seq<char>, col: Column) -> bool {
    &&& col.name == c.name
    &&& col.column_type == column_type_of(c.coltype)
    &&& col.column_options == (ColumnOptions {
        primary_key: c.options.primary_key,
        unique: c.options.unique,
        not_null: c.options.not_null,
        auto_increment: c.options.auto_increment,
    })
    &&& opt_view(col.alias) == (if c.alias@.len() == 0 { None } else { Some(c.alias@) })
    &&& col.foreign_key == c.foreign_key
    &&& opt_view(col.table_name) == Some(table)
}

impl TableDerive {
    /// The table as the query builder's table: its columns but the skipped ones,
    /// in order.
    pub fn to_table(&self) -> (res: Table)
        ensures
            res.name == self.name,
            res.columns@.len() == self.columns.columns@.filter(|c: ColumnDerive| !c.skip).len(),
            forall|i: int| 0 <= i < res.columns@.len() ==> builder_column(
                self.columns.columns@.filter(|c: ColumnDerive| !c.skip)[i],
                self.name@,
                #[trigger] res.columns@[i],
            ),
    {
        let ghost cols = self.columns.columns@;
        let mut columns: Vec<Column> = Vec::new();
        let mut i: usize = 0;
        while i < self.columns.columns.len()
            invariant
                i <= self.columns.columns.len(),
                cols == self.columns.columns@,
                columns@.len() == cols.take(i as int).filter(|c: ColumnDerive| !c.skip).len(),
                forall|j: int| 0 <= j < columns@.len() ==> builder_column(
                    cols.take(i as int).filter(|c: ColumnDerive| !c.skip)[j],
                    self.name@,
                    #[trigger] columns@[j],
                ),
            decreases self.columns.columns.len() - i,
        {
            proof {
                reveal_with_fuel(Seq::filter, 1);
                assert(cols.take(i + 1).drop_last() =~= cols.take(i as int));
                assert(cols.take(i + 1).last() == cols[i as int]);
            }
            let c = &self.columns.columns[i];
            if !c.skip {
                let alias = if c.alias.as_str().unicode_len() == 0 { None } else { Some(c.alias.clone()) };
                let col = Column {
                    name: c.name.clone(),
                    column_type: c.coltype.to_column_type(),
                    column_options: c.options.to_column_options(),
                    alias,
                    foreign_key: c.foreign_key.clone(),
                    table_name: Some(self.name.clone()),
                };
                columns.push(col);
            }
            i += 1;
        }
        assert(cols.take(cols.len() as int) =~= cols);
        Table { name: self.name.clone(), columns: Columns { columns } }
    }

    /// Applies the struct's attributes: `key` and `rename` name the table.
    pub fn apply_attributes(&mut self, attributes: &Vec<GeekAttribute>)
        ensures
            final(self).name@ == renamed(old(self).name@, attributes@),
            final(self).columns == old(self).columns,
            final(self).database == old(self).database,
    {
        let mut i: usize = 0;
        while i < attributes.len()
            invariant
                i <= attributes.len(),
                self.name@ == renamed(old(self).name@, attributes@.take(i as int)),
                self.columns == old(self).columns,
                self.database == old(self).database,
            decreases attributes.len() - i,
        {
            assert(attributes@.take(i + 1).drop_last() =~= attributes@.take(i as int));
            let attr = &attributes[i];
            match (&attr.key, &attr.value) {
                (Some(GeekAttributeKeys::Key), Some(GeekAttributeValue::String(n))) => {
                    self.name = n.clone();
                },
                (Some(GeekAttributeKeys::Rename), Some(GeekAttributeValue::String(n))) => {
                    self.name = n.clone();
                },
                _ => {},
            }
            i += 1;
        }
        assert(attributes@.take(attributes.len() as int) =~= attributes@);
    }

    /// The database of the table, `Database` when none is named.
    pub fn database_name(&self) -> (res: String)
        ensures
            res@ == (match opt_view(self.database) {
                Some(d) => d,
                None => "Database"@,
            }),
    {
        match &self.database {
            Some(d) => d.clone(),
            None => owned("Database"),
        }
    }
}

} // verus!
