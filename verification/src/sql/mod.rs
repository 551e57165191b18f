//! A finished SQL statement with the values bound to it.
use vstd::prelude::*;
use vstd::std_specs::convert::FromSpecImpl;
use crate::text::{owned, push_str, str_eq, trim, trim_spec, char_string};
use crate::values::value::ValueView;
use crate::values::values::{ValueBindingMode, Values};

verus! {

/// SQL Query struct
///
/// This is the final SQL query with its associated values.
#[derive(Debug, Clone, PartialEq)]
pub struct SqlQuery {
    /// The statement
    pub query: String,
    /// Parameters bound to the statement
    pub parameters: Values,
    /// Values of the statement
    pub values: Values,
}

/// `s` ends with `suffix`.
pub open spec fn ends_with_spec(s: Seq<char>, suffix: Seq<char>) -> bool {
    suffix.len() <= s.len() && s.subrange(s.len() - suffix.len(), s.len() as int) == suffix
}

/// `s` starts with `prefix`.
pub open spec fn starts_with_spec(s: Seq<char>, prefix: Seq<char>) -> bool {
    prefix.len() <= s.len() && s.subrange(0, prefix.len() as int) == prefix
}

impl SqlQuery {
    /// Create a new SQL Query
    pub fn new() -> (res: Self)
        ensures
            res.query@ == Seq::<char>::empty(),
            res.parameters@ == Seq::<(Seq<char>, ValueView)>::empty(),
            res.values@ == Seq::<(Seq<char>, ValueView)>::empty(),
            res.parameters.binding_mode == ValueBindingMode::Placeholder,
            res.values.binding_mode == ValueBindingMode::Placeholder,
    {
        SqlQuery { query: String::new(), parameters: Values::new(), values: Values::new() }
    }

    /// Whether the statement is empty
    pub fn is_empty(&self) -> (res: bool)
        ensures
            res == (self.query@.len() == 0),
    {
        self.query.as_str().unicode_len() == 0
    }

    /// Whether the statement ends with `c`
    pub fn ends_with(&self, c: &str) -> (res: bool)
        ensures
            res == ends_with_spec(self.query@, c@),
    {
        let len = self.query.as_str().unicode_len();
        let n = c.unicode_len();
        if n > len {
            return false;
        }
        let tail = self.query.as_str().substring_char(len - n, len);
        str_eq(tail, c)
    }

    /// Whether the statement starts with `c`
    pub fn starts_with(&self, c: &str) -> (res: bool)
        ensures
            res == starts_with_spec(self.query@, c@),
    {
        let len = self.query.as_str().unicode_len();
        let n = c.unicode_len();
        if n > len {
            return false;
        }
        let head = self.query.as_str().substring_char(0, n);
        str_eq(head, c)
    }

    /// Removes leading and trailing white space from the statement
    pub fn trim(&mut self)
        ensures
            final(self).query@ == trim_spec(old(self).query@),
            final(self).parameters == old(self).parameters,
            final(self).values == old(self).values,
    {
        self.query = owned(trim(self.query.as_str()));
    }

    /// Appends a character
    pub fn push(&mut self, sql: char)
        ensures
            final(self).query@ == old(self).query@.push(sql),
            final(self).parameters == old(self).parameters,
            final(self).values == old(self).values,
    {
        let one = char_string(sql);
        push_str(&mut self.query, one.as_str());
        assert(self.query@ =~= old(self).query@.push(sql));
    }

    /// Appends text
    pub fn push_str(&mut self, sql: &str)
        ensures
            final(self).query@ == old(self).query@ + sql@,
            final(self).parameters == old(self).parameters,
            final(self).values == old(self).values,
    {
        push_str(&mut self.query, sql);
    }

    /// The statement
    pub fn to_string(&self) -> (res: String)
        ensures
            res@ == self.query@,
    {
        self.query.clone()
    }
}

impl Default for SqlQuery {
    fn default() -> (res: Self)
        ensures
            res.query@ == Seq::<char>::empty(),
            res.parameters@ == Seq::<(Seq<char>, ValueView)>::empty(),
            res.values@ == Seq::<(Seq<char>, ValueView)>::empty(),
            res.parameters.binding_mode == ValueBindingMode::Placeholder,
            res.values.binding_mode == ValueBindingMode::Placeholder,
    {
        SqlQuery::new()
    }
}

impl From<String> for SqlQuery {
    fn from(query: String) -> (res: Self)
        ensures
            res.query == query,
            res.parameters@ == Seq::<(Seq<char>, ValueView)>::empty(),
            res.values@ == Seq::<(Seq<char>, ValueView)>::empty(),
            res.parameters.binding_mode == ValueBindingMode::Placeholder,
            res.values.binding_mode == ValueBindingMode::Placeholder,
    {
        SqlQuery { query, parameters: Values::new(), values: Values::new() }
    }
}

/// A statement holds vectors, which a specification function cannot build, so the
/// result is stated by the `ensures` of `from` above rather than by `from_spec`.
impl FromSpecImpl<String> for SqlQuery {
    open spec fn obeys_from_spec() -> bool {
        false
    }

    open spec fn from_spec(query: String) -> SqlQuery {
        arbitrary()
    }
}

} // verus!
