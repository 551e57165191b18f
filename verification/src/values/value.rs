//! A single value that can be bound to, or written into, an SQL statement.
use vstd::prelude::*;
use vstd::std_specs::convert::FromSpecImpl;
use crate::text::{decimal, digit_char, signed_decimal, u64_to_string, owned, push_str, chars_to_string};

verus! {

/// A value stored in, or compared against, a column.
#[derive(Debug, Clone, PartialEq)]
pub enum Value {
    /// An identifier (written like text)
    Identifier(String),
    /// Text value
    Text(String),
    /// Integer value
    Integer(i64),
    /// Boolean value
    Boolean(bool),
    /// Unix timestamp in seconds
    Datetime(u64),
    /// Raw bytes
    Blob(Vec<u8>),
    /// JSON document
    Json(String),
    /// SQL NULL
    Null,
}

/// The mathematical content of a [`Value`].
pub enum ValueView {
    /// An identifier
    Identifier(Seq<char>),
    /// Text value
    Text(Seq<char>),
    /// Integer value
    Integer(i64),
    /// Boolean value
    Boolean(bool),
    /// Unix timestamp in seconds
    Datetime(u64),
    /// Raw bytes
    Blob(Seq<u8>),
    /// JSON document
    Json(Seq<char>),
    /// SQL NULL
    Null,
}

impl View for Value {
    type V = ValueView;

    open spec fn view(&self) -> ValueView {
        match self {
            Value::Identifier(s) => ValueView::Identifier(s@),
            Value::Text(s) => ValueView::Text(s@),
            Value::Integer(i) => ValueView::Integer(*i),
            Value::Boolean(b) => ValueView::Boolean(*b),
            Value::Datetime(d) => ValueView::Datetime(*d),
            Value::Blob(b) => ValueView::Blob(b@),
            Value::Json(s) => ValueView::Json(s@),
            Value::Null => ValueView::Null,
        }
    }
}

/// Upper-case hexadecimal digit for a value below sixteen.
pub open spec fn hex_char(d: nat) -> char {
    if d < 10 { digit_char(d) }
    else if d == 10 { 'A' }
    else if d == 11 { 'B' }
    else if d == 12 { 'C' }
    else if d == 13 { 'D' }
    else if d == 14 { 'E' }
    else { 'F' }
}

/// Upper-case hexadecimal encoding of bytes, two digits per byte.
pub open spec fn hex_upper(bytes: Seq<u8>) -> Seq<char>
    decreases bytes.len(),
{
    if bytes.len() == 0 {
        Seq::empty()
    } else {
        hex_upper(bytes.drop_last()) + seq![
            hex_char((bytes.last() / 16) as nat),
            hex_char((bytes.last() % 16) as nat),
        ]
    }
}

/// The text of a value as it is written into a statement.
pub open spec fn value_text(v: ValueView) -> Seq<char> {
    match v {
        ValueView::Identifier(s) => s,
        ValueView::Text(s) => s,
        ValueView::Json(s) => s,
        ValueView::Integer(i) => signed_decimal(i as int),
        ValueView::Boolean(b) => if b { "true"@ } else { "false"@ },
        ValueView::Datetime(d) => decimal(d as nat),
        ValueView::Blob(b) => hex_upper(b),
        ValueView::Null => "NULL"@,
    }
}

fn hex_digit(d: u8) -> (c: char)
    requires
        d < 16,
    ensures
        c == hex_char(d as nat),
{
    if d < 10 {
        digit_char_exec(d)
    } else if d == 10 { 'A' }
    else if d == 11 { 'B' }
    else if d == 12 { 'C' }
    else if d == 13 { 'D' }
    else if d == 14 { 'E' }
    else { 'F' }
}

fn digit_char_exec(d: u8) -> (c: char)
    requires
        d < 10,
    ensures
        c == digit_char(d as nat),
{
    if d == 0 { '0' }
    else if d == 1 { '1' }
    else if d == 2 { '2' }
    else if d == 3 { '3' }
    else if d == 4 { '4' }
    else if d == 5 { '5' }
    else if d == 6 { '6' }
    else if d == 7 { '7' }
    else if d == 8 { '8' }
    else { '9' }
}

/// Encodes bytes as upper-case hexadecimal.
pub fn to_hex_upper(bytes: &Vec<u8>) -> (res: String)
    ensures
        res@ == hex_upper(bytes@),
{
    let mut chars: Vec<char> = Vec::new();
    let mut i: usize = 0;
    while i < bytes.len()
        invariant
            i <= bytes.len(),
            chars@ == hex_upper(bytes@.take(i as int)),
        decreases bytes.len() - i,
    {
        let b = bytes[i];
        let hi = hex_digit(b / 16);
        let lo = hex_digit(b % 16);
        assert(bytes@.take((i + 1) as int).drop_last() =~= bytes@.take(i as int));
        chars.push(hi);
        chars.push(lo);
        i += 1;
    }
    assert(bytes@.take(bytes.len() as int) =~= bytes@);
    chars_to_string(&chars)
}

/// Formats a signed integer in decimal.
pub fn i64_to_string(n: i64) -> (res: String)
    ensures
        res@ == signed_decimal(n as int),
{
    if n < 0 {
        let m: u64 = ((-(n + 1)) as u64) + 1;
        let digits = u64_to_string(m);
        let mut res = owned("-");
        proof { reveal_strlit("-"); }
        push_str(&mut res, digits.as_str());
        res
    } else {
        u64_to_string(n as u64)
    }
}

impl Value {
    /// The text of the value as written into a statement: text as-is, numbers in
    /// decimal, booleans as `true`/`false`, bytes in upper-case hexadecimal, `NULL`.
    pub fn to_sql_text(&self) -> (res: String)
        ensures
            res@ == value_text(self@),
    {
        match self {
            Value::Identifier(s) => s.clone(),
            Value::Text(s) => s.clone(),
            Value::Json(s) => s.clone(),
            Value::Integer(i) => i64_to_string(*i),
            Value::Boolean(b) => if *b { owned("true") } else { owned("false") },
            Value::Datetime(d) => u64_to_string(*d),
            Value::Blob(b) => to_hex_upper(b),
            Value::Null => owned("NULL"),
        }
    }

    /// A copy of the value.
    pub fn copy(&self) -> (res: Value)
        ensures
            res@ == self@,
    {
        match self {
            Value::Identifier(s) => Value::Identifier(s.clone()),
            Value::Text(s) => Value::Text(s.clone()),
            Value::Json(s) => Value::Json(s.clone()),
            Value::Integer(i) => Value::Integer(*i),
            Value::Boolean(b) => Value::Boolean(*b),
            Value::Datetime(d) => Value::Datetime(*d),
            Value::Blob(b) => Value::Blob(copy_bytes(b)),
            Value::Null => Value::Null,
        }
    }
}

/// A copy of a byte vector.
pub fn copy_bytes(b: &Vec<u8>) -> (res: Vec<u8>)
    ensures
        res@ == b@,
{
    let mut res: Vec<u8> = Vec::new();
    let mut i: usize = 0;
    while i < b.len()
        invariant
            i <= b.len(),
            res@ == b@.take(i as int),
        decreases b.len() - i,
    {
        res.push(b[i]);
        i += 1;
        assert(res@ =~= b@.take(i as int));
    }
    assert(b@.take(b.len() as int) =~= b@);
    res
}

impl Default for Value {
    fn default() -> (res: Value)
        ensures
            res == Value::Null,
    {
        Value::Null
    }
}

impl From<i32> for Value {
    fn from(v: i32) -> (res: Value) {
        Value::Integer(v as i64)
    }
}

impl FromSpecImpl<i32> for Value {
    open spec fn obeys_from_spec() -> bool {
        true
    }

    open spec fn from_spec(v: i32) -> Value {
        Value::Integer(v as i64)
    }
}

impl From<i64> for Value {
    fn from(v: i64) -> (res: Value) {
        Value::Integer(v)
    }
}

impl FromSpecImpl<i64> for Value {
    open spec fn obeys_from_spec() -> bool {
        true
    }

    open spec fn from_spec(v: i64) -> Value {
        Value::Integer(v)
    }
}

impl From<u32> for Value {
    fn from(v: u32) -> (res: Value) {
        Value::Integer(v as i64)
    }
}

impl FromSpecImpl<u32> for Value {
    open spec fn obeys_from_spec() -> bool {
        true
    }

    open spec fn from_spec(v: u32) -> Value {
        Value::Integer(v as i64)
    }
}

impl From<bool> for Value {
    fn from(v: bool) -> (res: Value) {
        Value::Boolean(v)
    }
}

impl FromSpecImpl<bool> for Value {
    open spec fn obeys_from_spec() -> bool {
        true
    }

    open spec fn from_spec(v: bool) -> Value {
        Value::Boolean(v)
    }
}

impl From<String> for Value {
    fn from(v: String) -> (res: Value) {
        Value::Text(v)
    }
}

impl FromSpecImpl<String> for Value {
    open spec fn obeys_from_spec() -> bool {
        true
    }

    open spec fn from_spec(v: String) -> Value {
        Value::Text(v)
    }
}

impl<'a> From<&'a str> for Value {
    fn from(v: &'a str) -> (res: Value)
        ensures
            res matches Value::Text(s) && s@ == v@,
    {
        Value::Text(owned(v))
    }
}

/// A `String` is only known by its characters, so the result is stated by the
/// `ensures` of `from` above rather than by `from_spec`.
impl<'a> FromSpecImpl<&'a str> for Value {
    open spec fn obeys_from_spec() -> bool {
        false
    }

    open spec fn from_spec(v: &'a str) -> Value {
        Value::Null
    }
}

} // verus!
