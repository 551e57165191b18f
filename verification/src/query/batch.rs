//! Batches of queries, used for transactions.
use vstd::prelude::*;
use vstd::string::*;
use vstd::std_specs::convert::FromSpecImpl;
use crate::builder::QueryType;
use crate::text::{owned, trim, trim_spec};
use crate::values::value::ValueView;
use super::Query;

verus! {

/// A collection of queries to be executed in a batch
#[derive(Debug, Clone, PartialEq)]
pub struct BatchQueries {
    /// Queries
    pub queries: Vec<Query>,
}

impl View for BatchQueries {
    type V = Seq<Query>;

    open spec fn view(&self) -> Seq<Query> {
        self.queries@
    }
}

impl BatchQueries {
    /// New
    pub fn new() -> (res: Self)
        ensures
            res@ == Seq::<Query>::empty(),
    {
        BatchQueries { queries: Vec::new() }
    }

    /// Append query
    pub fn push(&mut self, query: Query)
        ensures
            final(self)@ == old(self)@.push(query),
    {
        self.queries.push(query)
    }

    /// Gets all the internal queries
    pub fn queries(&self) -> (res: &Vec<Query>)
        ensures
            res@ == self@,
    {
        &self.queries
    }
}

/// The lines of a text finished so far, and the line being read.
pub open spec fn split_state(s: Seq<char>) -> (Seq<Seq<char>>, Seq<char>)
    decreases s.len(),
{
    if s.len() == 0 {
        (Seq::empty(), Seq::empty())
    } else {
        let (done, cur) = split_state(s.drop_last());
        if s.last() == '\n' {
            (done.push(cur), Seq::empty())
        } else {
            (done, cur.push(s.last()))
        }
    }
}

/// The pieces of a text between its `\n` characters.
pub open spec fn split_lines(s: Seq<char>) -> Seq<Seq<char>> {
    split_state(s).0.push(split_state(s).1)
}

/// A trimmed line holds a statement: it is not empty and not a `--` comment.
pub open spec fn is_statement(l: Seq<char>) -> bool {
    l.len() > 0 && !(l.len() >= 2 && l[0] == '-' && l[1] == '-')
}

/// The statements of an SQL text: its lines, trimmed, without empty lines and
/// `--` comments.
pub open spec fn sql_statements(s: Seq<char>) -> Seq<Seq<char>> {
    split_lines(s).map_values(|l: Seq<char>| trim_spec(l)).filter(|l: Seq<char>| is_statement(l))
}

/// Every statement read from a text is non-empty and no comment.
pub proof fn lemma_statements_are_statements(s: Seq<char>)
    ensures
        forall|i: int| 0 <= i < sql_statements(s).len() ==> is_statement(#[trigger] sql_statements(s)[i]),
{
    let trimmed = split_lines(s).map_values(|l: Seq<char>| trim_spec(l));
    assert forall|i: int| 0 <= i < sql_statements(s).len() implies is_statement(#[trigger] sql_statements(s)[i]) by {
        trimmed.lemma_filter_pred(|l: Seq<char>| is_statement(l), i);
    }
}

/// The statements of a query read from text: of unknown type, without values.
pub open spec fn is_text_query(q: Query, statement: Seq<char>) -> bool {
    &&& q.query@ == statement
    &&& q.query_type == QueryType::Unknown
    &&& q.values@ == Seq::<(Seq<char>, ValueView)>::empty()
    &&& q.params@ == Seq::<(Seq<char>, ValueView)>::empty()
}

fn split_text_lines(text: &str) -> (res: Vec<&str>)
    ensures
        res@.map_values(|l: &str| l@) == split_lines(text@),
{
    let len = text.unicode_len();
    let mut lines: Vec<&str> = Vec::new();
    let mut start: usize = 0;
    let mut i: usize = 0;
    while i < len
        invariant
            start <= i <= len,
            len == text@.len(),
            split_state(text@.take(i as int)) == (lines@.map_values(|l: &str| l@), text@.subrange(start as int, i as int)),
        decreases len - i,
    {
        assert(text@.take(i + 1).drop_last() =~= text@.take(i as int));
        assert(text@.take(i + 1).last() == text@[i as int]);
        let c = text.get_char(i);
        if c == '\n' {
            let line = text.substring_char(start, i);
            lines.push(line);
            start = i + 1;
            assert(lines@.map_values(|l: &str| l@) =~= split_state(text@.take(i + 1)).0);
            assert(text@.subrange(start as int, i + 1) =~= Seq::<char>::empty());
        } else {
            assert(text@.subrange(start as int, i + 1) =~= text@.subrange(start as int, i as int).push(c));
        }
        i += 1;
    }
    assert(text@.take(len as int) =~= text@);
    let last = text.substring_char(start, len);
    lines.push(last);
    assert(lines@.map_values(|l: &str| l@) =~= split_lines(text@));
    lines
}

/// Whether a trimmed line holds a statement.
fn line_is_statement(l: &str) -> (res: bool)
    ensures
        res == is_statement(l@),
{
    let n = l.unicode_len();
    if n == 0 {
        return false;
    }
    if n >= 2 && l.get_char(0) == '-' && l.get_char(1) == '-' {
        return false;
    }
    true
}

impl BatchQueries {
    /// The batch of the statements of an SQL text, one per line: lines are
    /// trimmed, and empty lines and `--` comments left out.
    pub fn from_sql_text(text: &str) -> (res: Self)
        ensures
            res@.len() == sql_statements(text@).len(),
            forall|i: int| 0 <= i < res@.len() ==> is_text_query(#[trigger] res@[i], sql_statements(text@)[i]),
    {
        let lines = split_text_lines(text);
        let ghost views = lines@.map_values(|l: &str| l@);
        let ghost trimmed = views.map_values(|l: Seq<char>| trim_spec(l));
        let mut batch = BatchQueries::new();
        let mut i: usize = 0;
        while i < lines.len()
            invariant
                i <= lines.len(),
                views == lines@.map_values(|l: &str| l@),
                trimmed == views.map_values(|l: Seq<char>| trim_spec(l)),
                batch@.len() == trimmed.take(i as int).filter(|l: Seq<char>| is_statement(l)).len(),
                forall|j: int| 0 <= j < batch@.len() ==> is_text_query(#[trigger] batch@[j], trimmed.take(i as int).filter(|l: Seq<char>| is_statement(l))[j]),
            decreases lines.len() - i,
        {
            proof {
                reveal_with_fuel(Seq::filter, 1);
                assert(trimmed.take(i + 1).drop_last() =~= trimmed.take(i as int));
                assert(trimmed.take(i + 1).last() == trim_spec(lines@[i as int]@));
            }
            let t = trim(lines[i]);
            if line_is_statement(t) {
                let q = Query::from_sql(owned(t));
                batch.push(q);
            }
            i += 1;
        }
        assert(trimmed.take(lines.len() as int) =~= trimmed);
        batch
    }
}

impl Default for BatchQueries {
    fn default() -> (res: Self)
        ensures
            res@ == Seq::<Query>::empty(),
    {
        BatchQueries::new()
    }
}

impl From<Vec<Query>> for BatchQueries {
    fn from(value: Vec<Query>) -> (res: Self) {
        BatchQueries { queries: value }
    }
}

impl FromSpecImpl<Vec<Query>> for BatchQueries {
    open spec fn obeys_from_spec() -> bool {
        true
    }

    open spec fn from_spec(value: Vec<Query>) -> BatchQueries {
        BatchQueries { queries: value }
    }
}

} // verus!
