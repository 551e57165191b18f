//! Properties of the builder that span its operations.
use vstd::prelude::*;
use crate::values::value::ValueView;
use super::conditions::{QueryCondition, WhereCondition};
use super::table::has_column;
use super::{
    QueryBuilderView, add_where_spec, builder_error, condition_spec, filter_spec, filter_step,
    limit_spec, order_by_spec, where_primary_key_spec, where_target,
};
use super::ordering::QueryOrder;

verus! {

/// The errors of `w` begin with all the errors of `v`.
pub open spec fn keeps_errors(v: QueryBuilderView, w: QueryBuilderView) -> bool {
    v.errors.len() <= w.errors.len() && forall|i: int| 0 <= i < v.errors.len() ==> #[trigger] w.errors[i] == v.errors[i]
}

/// A WHERE entry on `column` can be added: the column names a table of the query
/// and that table has it.
pub open spec fn where_accepted(v: QueryBuilderView, column: Seq<char>) -> bool {
    match where_target(v.database, column) {
        Ok((t, name)) => has_column(t, name),
        Err(_) => false,
    }
}

/// A WHERE entry keeps every error recorded before it.
pub proof fn lemma_where_keeps_errors(v: QueryBuilderView, column: Seq<char>, condition: QueryCondition, value: ValueView)
    ensures
        keeps_errors(v, add_where_spec(v, column, condition, value)),
{
}

/// A refused WHERE entry records one error and changes nothing else: the WHERE
/// clause and the values stay as they were, and the builder can no longer be
/// built.
pub proof fn lemma_refused_where_is_recorded(v: QueryBuilderView, column: Seq<char>, condition: QueryCondition, value: ValueView)
    requires
        !where_accepted(v, column),
    ensures
        add_where_spec(v, column, condition, value).errors.len() == v.errors.len() + 1,
        add_where_spec(v, column, condition, value).where_clause == v.where_clause,
        add_where_spec(v, column, condition, value).values == v.values,
        keeps_errors(v, add_where_spec(v, column, condition, value)),
{
}

/// An accepted WHERE entry adds one entry and its value, at the end, and records
/// no error.
pub proof fn lemma_accepted_where_adds_entry(v: QueryBuilderView, column: Seq<char>, condition: QueryCondition, value: ValueView)
    requires
        where_accepted(v, column),
    ensures
        add_where_spec(v, column, condition, value).errors == v.errors,
        add_where_spec(v, column, condition, value).where_clause.len() == v.where_clause.len() + 1,
        add_where_spec(v, column, condition, value).where_clause.last() == (column, condition, None::<WhereCondition>),
        add_where_spec(v, column, condition, value).values == v.values.push((column, value)),
{
}

/// `and()` / `or()` keep every error recorded before, and add one exactly when
/// there is no entry to join.
pub proof fn lemma_condition_keeps_errors(v: QueryBuilderView, c: WhereCondition)
    ensures
        keeps_errors(v, condition_spec(v, c)),
        condition_spec(v, c).errors.len() == v.errors.len() + (if v.where_clause.len() == 0 { 1int } else { 0int }),
{
}

/// `where_primary_key` keeps every error recorded before it.
pub proof fn lemma_where_primary_key_keeps_errors(v: QueryBuilderView, value: ValueView)
    ensures
        keeps_errors(v, where_primary_key_spec(v, value)),
{
}

/// `filter` keeps every error recorded before it.
pub proof fn lemma_filter_keeps_errors(v: QueryBuilderView, fields: Seq<(Seq<char>, ValueView)>)
    ensures
        keeps_errors(v, filter_spec(v, fields)),
    decreases fields.len(),
{
    if fields.len() > 0 {
        lemma_filter_keeps_errors(v, fields.drop_last());
        let w = filter_spec(v, fields.drop_last());
        let f = fields.last();
        let name = f.0;
        if !(name.len() > 0 && (name[0] == '=' || name[0] == '~' || name[0] == '!')) {
            let x = add_where_spec(w, name, QueryCondition::Eq, f.1);
            assert(keeps_errors(w, x));
            assert(keeps_errors(x, condition_spec(x, WhereCondition::Or)));
        }
        assert(keeps_errors(w, filter_step(w, f)));
    }
}

/// `order_by` and `limit` keep every error recorded before them.
pub proof fn lemma_order_and_limit_keep_errors(v: QueryBuilderView, column: String, order: QueryOrder, limit: usize)
    ensures
        keeps_errors(v, order_by_spec(v, column, order)),
        keeps_errors(v, limit_spec(v, limit)),
        limit == 0 ==> limit_spec(v, limit).errors == v.errors.push(builder_error("Limit cannot be 0"@, "limit"@)),
{
}

/// The column a filter field names: the field without its `=`, `~` or `!`.
pub open spec fn filter_column(name: Seq<char>) -> Seq<char> {
    if name.len() > 0 && (name[0] == '=' || name[0] == '~' || name[0] == '!') { name.skip(1) } else { name }
}

/// A filter field with no `=`, `~` or `!` in front compares its column for
/// equality and is joined to whatever follows with OR: it adds the entry
/// `name = ?` carrying OR, and its value, and records no error.
pub proof fn lemma_filter_plain_field_is_or(v: QueryBuilderView, name: Seq<char>, value: ValueView)
    requires
        name.len() == 0 || (name[0] != '=' && name[0] != '~' && name[0] != '!'),
        where_accepted(v, name),
    ensures
        filter_step(v, (name, value)).errors == v.errors,
        filter_step(v, (name, value)).where_clause.len() == v.where_clause.len() + 1,
        filter_step(v, (name, value)).where_clause.last() == (name, QueryCondition::Eq, Some(WhereCondition::Or)),
        filter_step(v, (name, value)).where_condition_last,
        filter_step(v, (name, value)).values == v.values.push((name, value)),
{
}

/// A filter field written `=name`, `~name` or `!name` compares column `name` for
/// equality, with LIKE, or for inequality: it adds that entry, with no AND / OR
/// of its own yet, and its value, and records no error.
pub proof fn lemma_filter_prefixed_field(v: QueryBuilderView, name: Seq<char>, value: ValueView)
    requires
        name.len() > 0,
        name[0] == '=' || name[0] == '~' || name[0] == '!',
        where_accepted(v, name.skip(1)),
    ensures
        filter_step(v, (name, value)).errors == v.errors,
        filter_step(v, (name, value)).where_clause.len() == v.where_clause.len() + 1,
        filter_step(v, (name, value)).where_clause.last() == (
            name.skip(1),
            if name[0] == '=' {
                QueryCondition::Eq
            } else if name[0] == '~' {
                QueryCondition::Like
            } else {
                QueryCondition::Ne
            },
            None::<WhereCondition>,
        ),
        !filter_step(v, (name, value)).where_condition_last,
        filter_step(v, (name, value)).values == v.values.push((name.skip(1), value)),
{
}

/// After a plain filter field, the next accepted filter field is joined to it
/// with OR: `filter([(a, x), (b, y)])` gives `a = ? OR b ...`.
pub proof fn lemma_filter_plain_then_next_is_or(
    v: QueryBuilderView,
    first: (Seq<char>, ValueView),
    second: (Seq<char>, ValueView),
)
    requires
        first.0.len() == 0 || (first.0[0] != '=' && first.0[0] != '~' && first.0[0] != '!'),
        where_accepted(v, first.0),
        where_accepted(filter_step(v, first), filter_column(second.0)),
    ensures
        filter_spec(v, seq![first, second]).where_clause.len() == v.where_clause.len() + 2,
        filter_spec(v, seq![first, second]).where_clause[v.where_clause.len() as int] == (
            first.0,
            QueryCondition::Eq,
            Some(WhereCondition::Or),
        ),
        filter_spec(v, seq![first, second]).where_clause.last().0 == filter_column(second.0),
        filter_spec(v, seq![first, second]).values == v.values.push(first).push((filter_column(second.0), second.1)),
{
    assert(seq![first, second].drop_last() =~= seq![first]);
    assert(seq![first].drop_last() =~= Seq::<(Seq<char>, ValueView)>::empty());
    let w = filter_step(v, first);
    assert(filter_spec(v, Seq::<(Seq<char>, ValueView)>::empty()) == v);
    assert(seq![first].last() == first);
    assert(filter_spec(v, seq![first]) == w);
    assert(seq![first, second].last() == second);
}

} // verus!
