//! Joins between tables.
use vstd::prelude::*;
use crate::text::{first_index, lemma_first_index, owned, push_str, split_once, split_once_spec, str_eq};
use super::columns::{named, Column};
use super::table::{Table, has_column, is_primary_key_pred, references_pred};

verus! {

/// Enum for joining tables
#[derive(Debug, Clone, PartialEq, Eq)]
pub enum TableJoin {
    /// Join
    Join {
        /// Left side (parent), `table.column`
        left: String,
        /// Right side (child), `table.column`
        right: String,
    },
    /// Inner Join
    InnerJoin {
        /// Left side (parent), `table.column`
        left: String,
        /// Right side (child), `table.column`
        right: String,
    },
}

/// The left side of a join.
pub open spec fn join_left(j: TableJoin) -> Seq<char> {
    match j {
        TableJoin::Join { left, .. } => left@,
        TableJoin::InnerJoin { left, .. } => left@,
    }
}

/// The right side of a join.
pub open spec fn join_right(j: TableJoin) -> Seq<char> {
    match j {
        TableJoin::Join { right, .. } => right@,
        TableJoin::InnerJoin { right, .. } => right@,
    }
}

/// The right side names a table: it holds a `.`.
pub open spec fn join_well_formed(j: TableJoin) -> bool {
    split_once_spec(join_right(j), '.') is Some
}

/// The table named by the right side of a join.
pub open spec fn join_right_table(j: TableJoin) -> Seq<char> {
    split_once_spec(join_right(j), '.').unwrap().0
}

/// The join as SQL: `JOIN table ON left = right` (or `INNER JOIN ...`), where
/// `table` is the table of the right side.
pub open spec fn join_sql(j: TableJoin) -> Seq<char> {
    match j {
        TableJoin::Join { left, right } =>
            "JOIN "@ + join_right_table(j) + " ON "@ + left@ + " = "@ + right@,
        TableJoin::InnerJoin { left, right } =>
            "INNER JOIN "@ + join_right_table(j) + " ON "@ + left@ + " = "@ + right@,
    }
}

impl TableJoin {
    /// Create a new join between 2 tables
    pub fn new(left: &str, right: &str) -> (res: Self)
        ensures
            res is Join,
            join_left(res) == left@,
            join_right(res) == right@,
    {
        TableJoin::Join { left: owned(left), right: owned(right) }
    }

    /// The join as SQL.
    pub fn sql(&self) -> (res: String)
        requires
            join_well_formed(*self),
        ensures
            res@ == join_sql(*self),
    {
        match self {
            TableJoin::Join { left, right } => {
                let (right_table, _) = split_once(right.as_str(), '.').unwrap();
                let mut s = owned("JOIN ");
                push_str(&mut s, right_table);
                push_str(&mut s, " ON ");
                push_str(&mut s, left.as_str());
                push_str(&mut s, " = ");
                push_str(&mut s, right.as_str());
                s
            },
            TableJoin::InnerJoin { left, right } => {
                let (right_table, _) = split_once(right.as_str(), '.').unwrap();
                let mut s = owned("INNER JOIN ");
                push_str(&mut s, right_table);
                push_str(&mut s, " ON ");
                push_str(&mut s, left.as_str());
                push_str(&mut s, " = ");
                push_str(&mut s, right.as_str());
                s
            },
        }
    }

    /// The left side of the join.
    pub fn left(&self) -> (res: &String)
        ensures
            res@ == join_left(*self),
    {
        match self {
            TableJoin::Join { left, .. } => left,
            TableJoin::InnerJoin { left, .. } => left,
        }
    }

    /// The right side of the join.
    pub fn right(&self) -> (res: &String)
        ensures
            res@ == join_right(*self),
    {
        match self {
            TableJoin::Join { right, .. } => right,
            TableJoin::InnerJoin { right, .. } => right,
        }
    }

    /// A copy of the join.
    pub fn copy(&self) -> (res: Self)
        ensures
            res == *self,
    {
        match self {
            TableJoin::Join { left, right } => TableJoin::Join { left: left.clone(), right: right.clone() },
            TableJoin::InnerJoin { left, right } => TableJoin::InnerJoin {
                left: left.clone(),
                right: right.clone(),
            },
        }
    }
}

/// Struct for joining tables
#[derive(Debug, Clone, PartialEq, Eq)]
pub struct TableJoins {
    /// The joins, in order
    pub joins: Vec<TableJoin>,
}

/// The predicate "the join's left side is `name`".
pub open spec fn left_is(name: Seq<char>) -> spec_fn(TableJoin) -> bool {
    |j: TableJoin| join_left(j) == name
}

/// The joins as SQL, written one after the other.
pub open spec fn joins_sql(joins: Seq<TableJoin>) -> Seq<char>
    decreases joins.len(),
{
    if joins.len() == 0 {
        Seq::empty()
    } else {
        joins_sql(joins.drop_last()) + join_sql(joins.last())
    }
}

/// Every join names a right table.
pub open spec fn joins_well_formed(joins: Seq<TableJoin>) -> bool {
    forall|i: int| 0 <= i < joins.len() ==> join_well_formed(#[trigger] joins[i])
}

impl TableJoins {
    /// No joins.
    pub fn new() -> (res: Self)
        ensures
            res.joins@ == Seq::<TableJoin>::empty(),
    {
        TableJoins { joins: Vec::new() }
    }

    /// Add a new join to the table
    pub fn push(&mut self, join: TableJoin)
        ensures
            final(self).joins@ == old(self).joins@.push(join),
    {
        self.joins.push(join);
    }

    /// Get the first join whose left side is `name`
    pub fn get(&self, name: &str) -> (res: Option<&TableJoin>)
        ensures
            match first_index(self.joins@, left_is(name@)) {
                Some(i) => res == Some(&self.joins@[i]),
                None => res.is_none(),
            },
    {
        let mut i: usize = 0;
        while i < self.joins.len()
            invariant
                i <= self.joins.len(),
                forall|j: int| 0 <= j < i ==> !left_is(name@)(#[trigger] self.joins@[j]),
            decreases self.joins.len() - i,
        {
            if str_eq(self.joins[i].left().as_str(), name) {
                proof { lemma_first_index(self.joins@, left_is(name@), i as int); }
                return Some(&self.joins[i]);
            }
            i += 1;
        }
        proof { lemma_first_index(self.joins@, left_is(name@), i as int); }
        None
    }

    /// Check if the joins are empty
    pub fn is_empty(&self) -> (res: bool)
        ensures
            res == (self.joins@.len() == 0),
    {
        self.joins.len() == 0
    }

    /// The joins as SQL.
    pub fn sql(&self) -> (res: String)
        requires
            joins_well_formed(self.joins@),
        ensures
            res@ == joins_sql(self.joins@),
    {
        let mut s = String::new();
        let mut i: usize = 0;
        while i < self.joins.len()
            invariant
                i <= self.joins.len(),
                joins_well_formed(self.joins@),
                s@ == joins_sql(self.joins@.take(i as int)),
            decreases self.joins.len() - i,
        {
            assert(self.joins@.take((i + 1) as int).drop_last() =~= self.joins@.take(i as int));
            let j = self.joins[i].sql();
            push_str(&mut s, j.as_str());
            i += 1;
        }
        assert(self.joins@.take(self.joins@.len() as int) =~= self.joins@);
        s
    }

    /// A copy of the joins.
    pub fn copy(&self) -> (res: Self)
        ensures
            res.joins@ == self.joins@,
    {
        let mut joins: Vec<TableJoin> = Vec::new();
        let mut i: usize = 0;
        while i < self.joins.len()
            invariant
                i <= self.joins.len(),
                joins@ == self.joins@.take(i as int),
            decreases self.joins.len() - i,
        {
            joins.push(self.joins[i].copy());
            i += 1;
            assert(joins@ =~= self.joins@.take(i as int));
        }
        assert(self.joins@.take(self.joins@.len() as int) =~= self.joins@);
        TableJoins { joins }
    }
}

impl Default for TableJoins {
    fn default() -> (res: Self)
        ensures
            res.joins@ == Seq::<TableJoin>::empty(),
    {
        TableJoins::new()
    }
}

/// Struct for Options regarding joining tables together
///
/// Parent Table is the left, Child Table is the right
#[derive(Debug, Clone, PartialEq, Eq)]
pub struct TableJoinOptions {
    /// Parent Table
    pub parent: Table,
    /// Child Table
    pub child: Table,
}

/// The join condition: the child's primary key equals the parent's foreign key
/// to the child, `Child.pk = Parent.fk`.
pub open spec fn join_options_sql(o: TableJoinOptions) -> Seq<char> {
    let pk = o.child.columns@[first_index(o.child.columns@, is_primary_key_pred()).unwrap()];
    let fk = o.parent.columns@[first_index(o.parent.columns@, references_pred(o.child.name@)).unwrap()];
    o.child.name@ + "."@ + pk.name@ + " = "@ + o.parent.name@ + "."@ + fk.name@
}

impl TableJoinOptions {
    /// Check if a Table.Column is valid
    pub fn is_valid_column(&self, column: &str) -> (res: bool)
        ensures
            res == (has_column(self.parent@, column@) || has_column(self.child@, column@)),
    {
        self.parent.is_valid_column(column) || self.child.is_valid_column(column)
    }

    /// The join condition as SQL.
    pub fn sql(&self) -> (res: String)
        requires
            first_index(self.child.columns@, is_primary_key_pred()) is Some,
            first_index(self.parent.columns@, references_pred(self.child.name@)) is Some,
        ensures
            res@ == join_options_sql(*self),
    {
        let ccolumn = self.child.get_primary_key().unwrap();
        let mut s = self.child.name.clone();
        push_str(&mut s, ".");
        push_str(&mut s, ccolumn.name.as_str());
        push_str(&mut s, " = ");
        let pcolumn = self.parent.get_foreign_key(self.child.name.clone()).unwrap();
        push_str(&mut s, self.parent.name.as_str());
        push_str(&mut s, ".");
        push_str(&mut s, pcolumn.name.as_str());
        s
    }
}

} // verus!
