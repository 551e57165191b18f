//! A collection of named values to be used in SQL queries.
use vstd::prelude::*;
use super::value::{Value, ValueView};
use crate::text::{first_index, lemma_first_index, lemma_first_index_found, owned, str_eq};

verus! {

/// The different options on how to bind values
#[derive(Debug, Clone, Copy, PartialEq, Eq, Structural)]
pub enum ValueBindingMode {
    /// This is using the standard `?`
    Placeholder,
    /// Named value `:VVV`
    Named,
    /// Numeric like `?NNN`
    Numeric,
}

impl Default for ValueBindingMode {
    fn default() -> (res: Self)
        ensures
            res == ValueBindingMode::Placeholder,
    {
        ValueBindingMode::Placeholder
    }
}

/// A value together with the column it belongs to.
#[derive(Debug, Clone, PartialEq)]
pub struct NamedValue {
    /// Column name
    pub name: String,
    /// The value
    pub value: Value,
}

impl View for NamedValue {
    type V = (Seq<char>, ValueView);

    open spec fn view(&self) -> (Seq<char>, ValueView) {
        (self.name@, self.value@)
    }
}

impl NamedValue {
    /// New NamedValue
    pub fn new(name: &str, value: Value) -> (res: Self)
        ensures
            res@ == (name@, value@),
    {
        NamedValue { name: owned(name), value }
    }

    /// Get name
    pub fn name(&self) -> (res: &str)
        ensures
            res@ == self.name@,
    {
        self.name.as_str()
    }

    /// Get Value
    pub fn value(&self) -> (res: &Value)
        ensures
            *res == self.value,
    {
        &self.value
    }

    /// A copy of the named value.
    pub fn copy(&self) -> (res: Self)
        ensures
            res@ == self@,
    {
        NamedValue { name: self.name.clone(), value: self.value.copy() }
    }
}

impl Default for NamedValue {
    fn default() -> (res: Self)
        ensures
            res@ == (Seq::<char>::empty(), ValueView::Null),
    {
        NamedValue { name: String::new(), value: Value::Null }
    }
}

/// The predicate "the value is named `name`".
pub open spec fn name_is(name: Seq<char>) -> spec_fn((Seq<char>, ValueView)) -> bool {
    |nv: (Seq<char>, ValueView)| nv.0 == name
}

/// The position of the first value named `name`, if any.
pub open spec fn index_of_name(s: Seq<(Seq<char>, ValueView)>, name: Seq<char>) -> Option<int> {
    first_index(s, name_is(name))
}

/// A value stored under a new name is found at the end; under a name already
/// used, the earlier value is still the one found.
pub proof fn lemma_push_then_find(s: Seq<(Seq<char>, ValueView)>, name: Seq<char>, value: ValueView)
    ensures
        index_of_name(s.push((name, value)), name) == (match index_of_name(s, name) {
            Some(i) => Some(i),
            None => Some(s.len() as int),
        }),
        index_of_name(s.push((name, value)), name) matches Some(i) && s.push((name, value))[i].0 == name,
{
    let t = s.push((name, value));
    lemma_first_index_found(s, name_is(name));
    match index_of_name(s, name) {
        Some(i) => {
            assert forall|j: int| 0 <= j < i implies !name_is(name)(#[trigger] t[j]) by {
                assert(t[j] == s[j]);
            }
            assert(t[i] == s[i]);
            lemma_first_index(t, name_is(name), i);
        },
        None => {
            assert forall|j: int| 0 <= j < s.len() implies !name_is(name)(#[trigger] t[j]) by {
                assert(t[j] == s[j]);
            }
            lemma_first_index(t, name_is(name), s.len() as int);
        },
    }
}

/// A value stored under another name leaves what a name finds unchanged.
pub proof fn lemma_push_other_keeps_find(s: Seq<(Seq<char>, ValueView)>, name: Seq<char>, other: Seq<char>, value: ValueView)
    requires
        other != name,
    ensures
        index_of_name(s.push((other, value)), name) == index_of_name(s, name),
{
    let t = s.push((other, value));
    lemma_first_index_found(s, name_is(name));
    match index_of_name(s, name) {
        Some(i) => {
            assert forall|j: int| 0 <= j < i implies !name_is(name)(#[trigger] t[j]) by {
                assert(t[j] == s[j]);
            }
            assert(t[i] == s[i]);
            lemma_first_index(t, name_is(name), i);
        },
        None => {
            assert forall|j: int| 0 <= j < t.len() implies !name_is(name)(#[trigger] t[j]) by {
                if j < s.len() {
                    assert(t[j] == s[j]);
                }
            }
            lemma_first_index(t, name_is(name), t.len() as int);
        },
    }
}

/// A collection of values to be used in SQL queries.
#[derive(Debug, Clone, PartialEq)]
pub struct Values {
    /// List of values
    pub values: Vec<NamedValue>,
    /// Binding mode that should be used for these particular values
    pub binding_mode: ValueBindingMode,
}

impl View for Values {
    type V = Seq<(Seq<char>, ValueView)>;

    open spec fn view(&self) -> Seq<(Seq<char>, ValueView)> {
        self.values@.map_values(|nv: NamedValue| nv@)
    }
}

impl Default for Values {
    fn default() -> (res: Self)
        ensures
            res@ == Seq::<(Seq<char>, ValueView)>::empty(),
            res.binding_mode == ValueBindingMode::Placeholder,
    {
        Values { values: Vec::new(), binding_mode: ValueBindingMode::Placeholder }
    }
}

impl Values {
    /// Create a new instance of Values
    pub fn new() -> (res: Self)
        ensures
            res@ == Seq::<(Seq<char>, ValueView)>::empty(),
            res.binding_mode == ValueBindingMode::Placeholder,
    {
        Values { values: Vec::new(), binding_mode: ValueBindingMode::Placeholder }
    }

    /// Push a value to the list of values
    pub fn push(&mut self, column: &str, value: Value)
        ensures
            final(self)@ == old(self)@.push((column@, value@)),
            final(self).binding_mode == old(self).binding_mode,
    {
        self.values.push(NamedValue::new(column, value));
        assert(self@ =~= old(self)@.push((column@, value@)));
    }

    /// Get the first value stored under `column`
    pub fn get(&self, column: &String) -> (res: Option<&Value>)
        ensures
            match index_of_name(self@, column@) {
                Some(i) => res.is_some() && res.unwrap()@ == self@[i].1,
                None => res.is_none(),
            },
    {
        let mut i: usize = 0;
        while i < self.values.len()
            invariant
                i <= self.values.len(),
                forall|j: int| 0 <= j < i ==> self@[j].0 != column@,
            decreases self.values.len() - i,
        {
            if self.values[i].name == *column {
                proof { lemma_first_index(self@, name_is(column@), i as int); }
                return Some(&self.values[i].value);
            }
            i += 1;
        }
        proof { lemma_first_index(self@, name_is(column@), i as int); }
        None
    }

    /// Length / Count of the values stored
    pub fn len(&self) -> (res: usize)
        ensures
            res == self@.len(),
    {
        self.values.len()
    }

    /// Check if the values are empty
    pub fn is_empty(&self) -> (res: bool)
        ensures
            res == (self@.len() == 0),
    {
        self.values.len() == 0
    }

    /// Get the values
    pub fn values(&self) -> (res: &Vec<NamedValue>)
        ensures
            res@ == self.values@,
    {
        &self.values
    }

    /// The values without their names, in order.
    pub fn into_values(self) -> (res: Vec<Value>)
        ensures
            res@.map_values(|v: Value| v@) == self@.map_values(|p: (Seq<char>, ValueView)| p.1),
    {
        let mut res: Vec<Value> = Vec::new();
        let mut i: usize = 0;
        while i < self.values.len()
            invariant
                i <= self.values.len(),
                res@.map_values(|v: Value| v@) == self@.take(i as int).map_values(|p: (Seq<char>, ValueView)| p.1),
            decreases self.values.len() - i,
        {
            assert(self@[i as int] == self.values@[i as int]@);
            assert(self@.take(i + 1) =~= self@.take(i as int).push(self@[i as int]));
            assert(self@.take(i + 1).map_values(|p: (Seq<char>, ValueView)| p.1) =~= self@.take(i as int).map_values(
                |p: (Seq<char>, ValueView)| p.1,
            ).push(self@[i as int].1));
            let ghost prev = res@;
            let v = self.values[i].value.copy();
            res.push(v);
            assert(res@.map_values(|v: Value| v@) =~= prev.map_values(|v: Value| v@).push(v@));
            i += 1;
        }
        assert(self@.take(self@.len() as int) =~= self@);
        res
    }

    /// Gets the index of the column (starts from 1)
    pub fn get_index(&self, column: &str) -> (res: Option<usize>)
        ensures
            match index_of_name(self@, column@) {
                Some(i) => res.is_some() && res.unwrap() as int == i + 1,
                None => res.is_none(),
            },
    {
        let mut i: usize = 0;
        while i < self.values.len()
            invariant
                i <= self.values.len(),
                forall|j: int| 0 <= j < i ==> self@[j].0 != column@,
            decreases self.values.len() - i,
        {
            if str_eq(self.values[i].name.as_str(), column) {
                proof { lemma_first_index(self@, name_is(column@), i as int); }
                return Some(i + 1);
            }
            i += 1;
        }
        proof { lemma_first_index(self@, name_is(column@), i as int); }
        None
    }

    /// A copy of the collection.
    pub fn copy(&self) -> (res: Self)
        ensures
            res@ == self@,
            res.binding_mode == self.binding_mode,
    {
        let mut values: Vec<NamedValue> = Vec::new();
        let mut i: usize = 0;
        while i < self.values.len()
            invariant
                i <= self.values.len(),
                values@.len() == i,
                forall|k: int| 0 <= k < i ==> #[trigger] values@[k]@ == self@[k],
            decreases self.values.len() - i,
        {
            let nv = self.values[i].copy();
            assert(self@[i as int] == self.values@[i as int]@);
            values.push(nv);
            i += 1;
        }
        let res = Values { values, binding_mode: self.binding_mode };
        assert(res@ =~= self@);
        res
    }
}

} // verus!
