//! Query conditions and WHERE clauses.
use vstd::prelude::*;
use crate::error::{Error, error_message};
use crate::text::{decimal, owned, push_str, u64_to_string};
use crate::values::value::ValueView;
use crate::values::values::{index_of_name, ValueBindingMode, Values};
use super::{QueryBuilder, builder_error};

verus! {

/// Query Condition (EQ, NE, etc.)
#[derive(Debug, Clone, Copy, PartialEq, Eq, Structural)]
pub enum QueryCondition {
    /// Equal
    Eq,
    /// Not Equal
    Ne,
    /// Like
    Like,
    /// Greater Than
    Gt,
    /// Less Than
    Lt,
    /// Greater Than or Equal to
    Gte,
    /// Less Than or Equal to
    Lte,
}

impl Default for QueryCondition {
    fn default() -> (res: Self)
        ensures
            res == QueryCondition::Eq,
    {
        QueryCondition::Eq
    }
}

/// The SQL operator of a condition.
pub open spec fn condition_sql(c: QueryCondition) -> Seq<char> {
    match c {
        QueryCondition::Eq => "="@,
        QueryCondition::Ne => "!="@,
        QueryCondition::Like => "LIKE"@,
        QueryCondition::Gt => ">"@,
        QueryCondition::Lt => "<"@,
        QueryCondition::Gte => ">="@,
        QueryCondition::Lte => "<="@,
    }
}

impl QueryCondition {
    /// The SQL operator of the condition.
    pub fn sql(&self) -> (res: String)
        ensures
            res@ == condition_sql(*self),
    {
        match self {
            QueryCondition::Eq => owned("="),
            QueryCondition::Ne => owned("!="),
            QueryCondition::Like => owned("LIKE"),
            QueryCondition::Gt => owned(">"),
            QueryCondition::Lt => owned("<"),
            QueryCondition::Gte => owned(">="),
            QueryCondition::Lte => owned("<="),
        }
    }
}

/// Where Condition (AND, OR)
#[derive(Debug, Clone, Copy, PartialEq, Eq, Structural)]
pub enum WhereCondition {
    /// And condition
    And,
    /// Or condition
    Or,
}

impl Default for WhereCondition {
    fn default() -> (res: Self)
        ensures
            res == WhereCondition::And,
    {
        WhereCondition::And
    }
}

/// The SQL keyword of a where condition.
pub open spec fn where_condition_sql(c: WhereCondition) -> Seq<char> {
    match c {
        WhereCondition::And => "AND"@,
        WhereCondition::Or => "OR"@,
    }
}

impl WhereCondition {
    /// The SQL keyword of the condition.
    pub fn sql(&self) -> (res: String)
        ensures
            res@ == where_condition_sql(*self),
    {
        match self {
            WhereCondition::And => owned("AND"),
            WhereCondition::Or => owned("OR"),
        }
    }

    /// Get all where conditions as a vector of strings
    pub fn all() -> (res: Vec<String>)
        ensures
            res@.len() == 2,
            res@[0]@ == "AND"@,
            res@[1]@ == "OR"@,
    {
        let mut v = Vec::new();
        v.push(WhereCondition::And.sql());
        v.push(WhereCondition::Or.sql());
        v
    }
}

/// One entry of a WHERE clause: column, comparison, and the keyword that joins it
/// to the next entry.
pub type WhereEntry = (String, QueryCondition, Option<WhereCondition>);

/// Query Where clause
#[derive(Debug, Clone, PartialEq, Eq)]
pub struct WhereClause {
    /// The entries, in order
    pub conditions: Vec<WhereEntry>,
}

/// The view of a WHERE entry.
pub open spec fn entry_view(e: WhereEntry) -> (Seq<char>, QueryCondition, Option<WhereCondition>) {
    (e.0@, e.1, e.2)
}

impl View for WhereClause {
    type V = Seq<(Seq<char>, QueryCondition, Option<WhereCondition>)>;

    open spec fn view(&self) -> Self::V {
        self.conditions@.map_values(|e: WhereEntry| entry_view(e))
    }
}

/// The parameter marker of a column for a binding mode: `?`, `:column`, or `?N`
/// with `N` the 1-based position of the column's value.
pub open spec fn binding_sql(column: Seq<char>, values: Seq<(Seq<char>, ValueView)>, mode: ValueBindingMode) -> Seq<char> {
    match mode {
        ValueBindingMode::Placeholder => "?"@,
        ValueBindingMode::Named => ":"@ + column,
        ValueBindingMode::Numeric => match index_of_name(values, column) {
            Some(i) => "?"@ + decimal((i + 1) as nat),
            None => "?"@,
        },
    }
}

/// One entry as SQL: `column OP marker`, then ` AND ` / ` OR ` when it is joined
/// to a following entry.
pub open spec fn entry_sql(
    e: (Seq<char>, QueryCondition, Option<WhereCondition>),
    values: Seq<(Seq<char>, ValueView)>,
    mode: ValueBindingMode,
) -> Seq<char> {
    e.0 + " "@ + condition_sql(e.1) + " "@ + binding_sql(e.0, values, mode) + match e.2 {
        Some(w) => " "@ + where_condition_sql(w) + " "@,
        None => Seq::empty(),
    }
}

/// The entries as SQL, one after the other.
pub open spec fn entries_sql(
    entries: Seq<(Seq<char>, QueryCondition, Option<WhereCondition>)>,
    values: Seq<(Seq<char>, ValueView)>,
    mode: ValueBindingMode,
) -> Seq<char>
    decreases entries.len(),
{
    if entries.len() == 0 {
        Seq::empty()
    } else {
        entries_sql(entries.drop_last(), values, mode) + entry_sql(entries.last(), values, mode)
    }
}

/// The WHERE clause as SQL: empty without entries, `WHERE ` and the entries otherwise.
pub open spec fn where_sql(
    entries: Seq<(Seq<char>, QueryCondition, Option<WhereCondition>)>,
    values: Seq<(Seq<char>, ValueView)>,
    mode: ValueBindingMode,
) -> Seq<char> {
    if entries.len() == 0 {
        Seq::empty()
    } else {
        "WHERE "@ + entries_sql(entries, values, mode)
    }
}

/// Every column of the entries has a value, so that numeric markers exist.
pub open spec fn all_bound(
    entries: Seq<(Seq<char>, QueryCondition, Option<WhereCondition>)>,
    values: Seq<(Seq<char>, ValueView)>,
) -> bool {
    forall|i: int| 0 <= i < entries.len() ==> index_of_name(values, #[trigger] entries[i].0) is Some
}

/// Appends the parameter marker of a column.
pub fn push_binding(stream: &mut String, column: &String, values: &Values)
    requires
        values.binding_mode == ValueBindingMode::Numeric ==> index_of_name(values@, column@) is Some,
    ensures
        final(stream)@ == old(stream)@ + binding_sql(column@, values@, values.binding_mode),
{
    if values.binding_mode == ValueBindingMode::Placeholder {
        push_str(stream, "?");
    } else if values.binding_mode == ValueBindingMode::Named {
        push_str(stream, ":");
        push_str(stream, column.as_str());
    } else {
        let index = values.get_index(column.as_str());
        push_str(stream, "?");
        if let Some(i) = index {
            let n = u64_to_string(i as u64);
            push_str(stream, n.as_str());
        }
    }
}

/// Appends one entry.
fn push_entry(stream: &mut String, entry: &WhereEntry, values: &Values)
    requires
        values.binding_mode == ValueBindingMode::Numeric ==> index_of_name(values@, entry.0@) is Some,
    ensures
        final(stream)@ == old(stream)@ + entry_sql(entry_view(*entry), values@, values.binding_mode),
{
    push_str(stream, entry.0.as_str());
    push_str(stream, " ");
    let op = entry.1.sql();
    push_str(stream, op.as_str());
    push_str(stream, " ");
    push_binding(stream, &entry.0, values);
    if let Some(next) = &entry.2 {
        push_str(stream, " ");
        let w = next.sql();
        push_str(stream, w.as_str());
        push_str(stream, " ");
    }
}

impl WhereClause {
    /// An empty where clause.
    pub fn new() -> (res: Self)
        ensures
            res@ == Seq::<(Seq<char>, QueryCondition, Option<WhereCondition>)>::empty(),
    {
        WhereClause { conditions: Vec::new() }
    }

    /// If the where clause is empty
    pub fn is_empty(&self) -> (res: bool)
        ensures
            res == (self@.len() == 0),
    {
        self.conditions.len() == 0
    }

    /// Push a new condition to the where clause
    pub fn push(&mut self, column: String, condition: QueryCondition)
        ensures
            final(self)@ == old(self)@.push((column@, condition, None)),
    {
        self.conditions.push((column, condition, None));
        assert(self@ =~= old(self)@.push((column@, condition, None)));
    }

    /// Joins the last entry to the next one with `condition`; an empty clause is
    /// refused and left unchanged.
    pub fn push_condition(&mut self, condition: WhereCondition) -> (res: Result<(), Error>)
        ensures
            old(self)@.len() == 0 <==> res is Err,
            res is Err ==> final(self)@ == old(self)@,
            res matches Err(e) ==> error_message(e) == builder_error(
                "Cannot push condition to empty where clause"@,
                "push_condition"@,
            ),
            res is Ok ==> final(self)@ == old(self)@.update(
                old(self)@.len() - 1,
                (old(self)@.last().0, old(self)@.last().1, Some(condition)),
            ),
    {
        let len = self.conditions.len();
        if len == 0 {
            return Err(
                Error::query_builder(
                    "Cannot push condition to empty where clause",
                    "push_condition",
                ),
            );
        }
        let (column, qcondition, _) = self.conditions.pop().unwrap();
        self.conditions.push((column, qcondition, Some(condition)));
        assert(self@ =~= old(self)@.update(
            old(self)@.len() - 1,
            (old(self)@.last().0, old(self)@.last().1, Some(condition)),
        ));
        Ok(())
    }

    /// The clause as SQL with `?` markers.
    pub fn sql(&self) -> (res: String)
        ensures
            res@ == where_sql(self@, Seq::empty(), ValueBindingMode::Placeholder),
    {
        let values = Values::new();
        self.to_sql_with(&values)
    }

    /// The clause as SQL, with the markers of the values' binding mode.
    pub fn to_sql_with(&self, values: &Values) -> (res: String)
        requires
            values.binding_mode == ValueBindingMode::Numeric ==> all_bound(self@, values@),
        ensures
            res@ == where_sql(self@, values@, values.binding_mode),
    {
        let mut stream = String::new();
        if self.conditions.len() == 0 {
            return stream;
        }
        push_str(&mut stream, "WHERE ");
        let mut i: usize = 0;
        while i < self.conditions.len()
            invariant
                i <= self.conditions.len(),
                values.binding_mode == ValueBindingMode::Numeric ==> all_bound(self@, values@),
                stream@ == "WHERE "@ + entries_sql(self@.take(i as int), values@, values.binding_mode),
            decreases self.conditions.len() - i,
        {
            let entry = &self.conditions[i];
            assert(self@[i as int] == entry_view(*entry));
            assert(self@.take((i + 1) as int).drop_last() =~= self@.take(i as int));
            push_entry(&mut stream, entry, values);
            i += 1;
        }
        assert(self@.take(self@.len() as int) =~= self@);
        stream
    }

    /// The clause as SQL for a query, with the markers of its values.
    pub fn to_sql(&self, query: &QueryBuilder) -> (res: Result<String, Error>)
        requires
            query.values.binding_mode == ValueBindingMode::Numeric ==> all_bound(self@, query.values@),
        ensures
            res matches Ok(s) && s@ == where_sql(self@, query.values@, query.values.binding_mode),
    {
        Ok(self.to_sql_with(&query.values))
    }

    /// A copy of the clause.
    pub fn copy(&self) -> (res: Self)
        ensures
            res@ == self@,
    {
        let mut conditions: Vec<WhereEntry> = Vec::new();
        let mut i: usize = 0;
        while i < self.conditions.len()
            invariant
                i <= self.conditions.len(),
                conditions@.len() == i,
                forall|k: int| 0 <= k < i ==> entry_view(#[trigger] conditions@[k]) == self@[k],
            decreases self.conditions.len() - i,
        {
            let e = &self.conditions[i];
            assert(self@[i as int] == entry_view(*e));
            conditions.push((e.0.clone(), e.1, e.2));
            i += 1;
        }
        let res = WhereClause { conditions };
        assert(res@ =~= self@);
        res
    }
}

impl Default for WhereClause {
    fn default() -> (res: Self)
        ensures
            res@ == Seq::<(Seq<char>, QueryCondition, Option<WhereCondition>)>::empty(),
    {
        WhereClause::new()
    }
}

} // verus!
