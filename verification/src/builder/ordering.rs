//! ORDER BY clauses.
use vstd::prelude::*;
use crate::text::{join, join_seqs, owned, push_str, string_views};
use crate::values::value::{value_text, ValueView};
use crate::values::values::Values;
use super::table::{push_space, spaced};

verus! {

/// Case Expression
///
/// This is used for things like Enums
#[derive(Debug, Clone, PartialEq)]
pub struct CaseExpression {
    /// Column of the case check
    pub column: String,
    /// Values of the colums
    pub cases: Values,
}

/// One `WHEN 'key' THEN value` arm.
pub open spec fn case_arm_sql(case: (Seq<char>, ValueView)) -> Seq<char> {
    "WHEN '"@ + case.0 + "' THEN "@ + value_text(case.1)
}

/// The case expression as SQL: `CASE column` and its arms, separated by spaces,
/// then `END`.
pub open spec fn case_sql(column: Seq<char>, cases: Seq<(Seq<char>, ValueView)>) -> Seq<char> {
    "CASE "@ + column + " "@ + join_seqs(cases.map_values(|c: (Seq<char>, ValueView)| case_arm_sql(c)), " "@)
        + " END"@
}

impl CaseExpression {
    /// New Case Expression
    pub fn new(column: String, cases: Values) -> (res: Self)
        ensures
            res.column == column,
            res.cases == cases,
    {
        Self { column, cases }
    }

    /// The case expression as SQL.
    pub fn sql(&self) -> (res: String)
        ensures
            res@ == case_sql(self.column@, self.cases@),
    {
        let mut arms: Vec<String> = Vec::new();
        let mut i: usize = 0;
        let ghost cases = self.cases@;
        while i < self.cases.values.len()
            invariant
                i <= self.cases.values.len(),
                cases == self.cases@,
                arms@.len() == i,
                forall|k: int| 0 <= k < i ==> #[trigger] arms@[k]@ == case_arm_sql(cases[k]),
            decreases self.cases.values.len() - i,
        {
            let nv = &self.cases.values[i];
            assert(cases[i as int] == nv@);
            let mut arm = owned("WHEN '");
            push_str(&mut arm, nv.name.as_str());
            push_str(&mut arm, "' THEN ");
            let v = nv.value.to_sql_text();
            push_str(&mut arm, v.as_str());
            arms.push(arm);
            i += 1;
        }
        assert(string_views(arms@) =~= cases.map_values(|c: (Seq<char>, ValueView)| case_arm_sql(c)));
        let mut s = owned("CASE ");
        push_str(&mut s, self.column.as_str());
        push_str(&mut s, " ");
        let body = join(&arms, " ");
        push_str(&mut s, body.as_str());
        push_str(&mut s, " END");
        s
    }

    /// A copy of the case expression.
    pub fn copy(&self) -> (res: Self)
        ensures
            res.column == self.column,
            res.cases@ == self.cases@,
            res.cases.binding_mode == self.cases.binding_mode,
    {
        CaseExpression { column: self.column.clone(), cases: self.cases.copy() }
    }
}

/// Query Order (ASC / DESC)
#[derive(Debug, Clone, PartialEq)]
pub enum QueryOrder {
    /// Ascending
    Asc,
    /// Descending
    Desc,
    /// Nulls first
    NullsFirst,
    /// Nulls last
    NullsLast,
    /// Case
    Case(CaseExpression),
}

/// The ordering as SQL.
pub open spec fn order_sql(o: QueryOrder) -> Seq<char> {
    match o {
        QueryOrder::Asc => "ASC"@,
        QueryOrder::Desc => "DESC"@,
        QueryOrder::NullsFirst => "NULLS FIRST"@,
        QueryOrder::NullsLast => "NULLS LAST"@,
        QueryOrder::Case(c) => case_sql(c.column@, c.cases@),
    }
}

impl QueryOrder {
    /// The keyword of a plain ordering; a case ordering has none.
    pub fn sql(&self) -> (res: String)
        requires
            !(self is Case),
        ensures
            res@ == order_sql(*self),
    {
        match self {
            QueryOrder::Asc => owned("ASC"),
            QueryOrder::Desc => owned("DESC"),
            QueryOrder::NullsFirst => owned("NULLS FIRST"),
            _ => owned("NULLS LAST"),
        }
    }

    /// The ordering as SQL, a case expression included.
    pub fn to_sql(&self) -> (res: String)
        ensures
            res@ == order_sql(*self),
    {
        match self {
            QueryOrder::Case(case) => case.sql(),
            _ => self.sql(),
        }
    }
}

/// Order Clause
#[derive(Debug, Clone, PartialEq)]
pub struct OrderClause {
    /// Columns name and order
    pub columns: Vec<(String, QueryOrder)>,
}

/// One `column ORDER` item.
pub open spec fn order_item_sql(item: (String, QueryOrder)) -> Seq<char> {
    item.0@ + " "@ + order_sql(item.1)
}

/// The clause as SQL: empty without columns, otherwise `ORDER BY ` and the items
/// separated by `, `.
pub open spec fn order_clause_sql(items: Seq<(String, QueryOrder)>) -> Seq<char> {
    if items.len() == 0 {
        Seq::empty()
    } else {
        "ORDER BY "@ + join_seqs(items.map_values(|i: (String, QueryOrder)| order_item_sql(i)), ", "@)
    }
}

impl OrderClause {
    /// No ordering.
    pub fn new() -> (res: Self)
        ensures
            res.columns@ == Seq::<(String, QueryOrder)>::empty(),
    {
        OrderClause { columns: Vec::new() }
    }

    /// Is empty?
    pub fn is_empty(&self) -> (res: bool)
        ensures
            res == (self.columns@.len() == 0),
    {
        self.columns.len() == 0
    }

    /// Push a new column to the order clause
    pub fn push(&mut self, column: String, order: QueryOrder)
        ensures
            final(self).columns@ == old(self).columns@.push((column, order)),
    {
        self.columns.push((column, order));
    }

    /// The clause as SQL.
    pub fn sql(&self) -> (res: String)
        ensures
            res@ == order_clause_sql(self.columns@),
    {
        if self.columns.len() == 0 {
            return String::new();
        }
        let mut items: Vec<String> = Vec::new();
        let mut i: usize = 0;
        while i < self.columns.len()
            invariant
                i <= self.columns.len(),
                items@.len() == i,
                forall|k: int| 0 <= k < i ==> #[trigger] items@[k]@ == order_item_sql(self.columns@[k]),
            decreases self.columns.len() - i,
        {
            let (col, order) = &self.columns[i];
            let mut item = col.clone();
            push_str(&mut item, " ");
            let o = order.to_sql();
            push_str(&mut item, o.as_str());
            items.push(item);
            i += 1;
        }
        assert(string_views(items@) =~= self.columns@.map_values(|it: (String, QueryOrder)| order_item_sql(it)));
        let mut s = owned("ORDER BY ");
        let body = join(&items, ", ");
        push_str(&mut s, body.as_str());
        s
    }

    /// Appends the clause, after a space when needed; nothing when it is empty.
    pub fn to_sql_stream(&self, stream: &mut String)
        ensures
            self.columns@.len() == 0 ==> final(stream)@ == old(stream)@,
            self.columns@.len() > 0 ==> final(stream)@ == spaced(old(stream)@) + order_clause_sql(
                self.columns@,
            ),
    {
        if self.columns.len() != 0 {
            push_space(stream);
            let s = self.sql();
            push_str(stream, s.as_str());
        }
    }
}

impl Default for OrderClause {
    fn default() -> (res: Self)
        ensures
            res.columns@ == Seq::<(String, QueryOrder)>::empty(),
    {
        OrderClause::new()
    }
}

} // verus!
