//! The `#[geekorm(..)]` attributes of a field.
//!
//! An attribute is a name, optionally followed by `=` and a literal:
//! `#[geekorm(primary_key, rename = "full_name", rand_length = 42)]`.
use vstd::prelude::*;
use crate::text::{owned, push_str, split_once, split_once_spec, str_eq};
use super::{DeriveError, DeriveFeatures};

verus! {

/// The attributes a field can carry.
#[derive(Debug, Clone, Copy, PartialEq, Eq, Structural)]
pub enum GeekAttributeKeys {
    /// Rename the field for the table
    Rename,
    /// Unique value
    Unique,
    /// New Constructor
    New,
    /// Primary Key
    PrimaryKey,
    /// Auto Increment
    AutoIncrement,
    /// Not Null
    NotNull,
    /// Foreign Key
    ForeignKey,
    /// Random value
    Rand,
    /// Length of a random value
    RandLength,
    /// Prefix of a random value
    RandPrefix,
    /// Environment part of a random value
    RandEnv,
    /// Hash / Password
    Hash,
    /// Algorithm of a hashed value
    HashAlgorithm,
    /// Skip this field
    Skip,
    /// The text of an enum variant
    Key,
    /// Turn off a generated conversion
    Disable,
    /// Both the save and the update expression, from a boolean
    OnValidate,
    /// The expression a column is set to on each update
    OnUpdate,
    /// The expression a column is set to on each save
    OnSave,
    /// The column can be searched
    Searchable,
}

/// The literal value of an attribute.
#[derive(Debug, PartialEq, Eq)]
pub enum GeekAttributeValue {
    /// A string literal
    String(String),
    /// An integer literal
    Int(i64),
    /// A boolean literal
    Bool(bool),
}

impl GeekAttributeValue {
    /// A copy of the value.
    pub fn copy(&self) -> (res: Self)
        ensures
            res == *self,
    {
        match self {
            GeekAttributeValue::String(s) => GeekAttributeValue::String(s.clone()),
            GeekAttributeValue::Int(i) => GeekAttributeValue::Int(*i),
            GeekAttributeValue::Bool(b) => GeekAttributeValue::Bool(*b),
        }
    }
}

/// A copy of an optional attribute value.
pub fn copy_value(v: &Option<GeekAttributeValue>) -> (res: Option<GeekAttributeValue>)
    ensures
        res == *v,
{
    match v {
        Some(x) => Some(x.copy()),
        None => None,
    }
}

/// One attribute as written: its name, and its literal value when one follows
/// `=` (a literal of another kind gives no value).
#[derive(Debug, PartialEq, Eq)]
pub struct AttributeItem {
    /// The attribute's name
    pub name: String,
    /// The attribute's value
    pub value: Option<GeekAttributeValue>,
}

/// One attribute list on a field: the path of the attribute and the items
/// between its parentheses.
#[derive(Debug, PartialEq, Eq)]
pub struct AttributeGroup {
    /// The attribute's path, `geekorm` for the derive's own attributes
    pub path: String,
    /// The items of the list
    pub items: Vec<AttributeItem>,
}

/// A parsed attribute.
#[derive(Debug, PartialEq, Eq)]
pub struct GeekAttribute {
    /// The attribute's name as written
    pub name: String,
    /// What the attribute sets
    pub key: Option<GeekAttributeKeys>,
    /// The attribute's value
    pub value: Option<GeekAttributeValue>,
}

/// The message of an attribute that needs a feature the derive was built without.
pub open spec fn feature_message(attribute: Seq<char>, feature: Seq<char>) -> Seq<char> {
    "The `"@ + attribute + "` attribute requires the `"@ + feature + "` feature to be enabled"@
}

/// What an attribute name sets, or why it is refused: unknown names, and names of
/// features the derive was built without.
pub open spec fn attribute_key(name: Seq<char>, f: DeriveFeatures) -> Result<GeekAttributeKeys, Seq<char>> {
    if name == "skip"@ {
        Ok(GeekAttributeKeys::Skip)
    } else if name == "rename"@ {
        Ok(GeekAttributeKeys::Rename)
    } else if name == "primary_key"@ {
        Ok(GeekAttributeKeys::PrimaryKey)
    } else if name == "auto_increment"@ {
        Ok(GeekAttributeKeys::AutoIncrement)
    } else if name == "not_null"@ {
        Ok(GeekAttributeKeys::NotNull)
    } else if name == "unique"@ {
        Ok(GeekAttributeKeys::Unique)
    } else if name == "foreign_key"@ {
        Ok(GeekAttributeKeys::ForeignKey)
    } else if name == "key"@ {
        Ok(GeekAttributeKeys::Key)
    } else if name == "disable"@ {
        Ok(GeekAttributeKeys::Disable)
    } else if name == "new"@ {
        if f.new { Ok(GeekAttributeKeys::New) } else { Err(feature_message(name, "new"@)) }
    } else if name == "rand"@ {
        if f.rand { Ok(GeekAttributeKeys::Rand) } else { Err(feature_message(name, "rand"@)) }
    } else if name == "rand_length"@ {
        if f.rand { Ok(GeekAttributeKeys::RandLength) } else { Err(feature_message(name, "rand"@)) }
    } else if name == "rand_prefix"@ {
        if f.rand { Ok(GeekAttributeKeys::RandPrefix) } else { Err(feature_message(name, "rand"@)) }
    } else if name == "rand_env"@ {
        if f.rand { Ok(GeekAttributeKeys::RandEnv) } else { Err(feature_message(name, "rand"@)) }
    } else if name == "hash"@ || name == "password"@ {
        if f.hash {
            Ok(GeekAttributeKeys::Hash)
        } else {
            Err(feature_message("hash` or `password"@, "hash"@))
        }
    } else if name == "hash_algorithm"@ {
        if f.hash { Ok(GeekAttributeKeys::HashAlgorithm) } else { Err(feature_message(name, "hash"@)) }
    } else {
        Err("Unknown attribute `"@ + name + "`"@)
    }
}

/// The message of an attribute that is refused, or `None` when it is valid.
///
/// `primary_key` takes no value; `new` takes a string or a boolean;
/// `foreign_key` takes a `table.column` string; `hash_algorithm` takes the name
/// of a supported algorithm. Other attributes are not checked.
pub open spec fn validate_spec(a: GeekAttribute, algorithms: Seq<Seq<char>>) -> Option<Seq<char>> {
    match a.key {
        Some(GeekAttributeKeys::PrimaryKey) => if a.value is Some {
            Some("The `primary_key` attribute does not require a value"@)
        } else {
            None
        },
        Some(GeekAttributeKeys::New) => match a.value {
            Some(GeekAttributeValue::Int(_)) => Some("The `new` attribute requires a string value"@),
            Some(_) => None,
            None => Some("The `new` attribute requires a value"@),
        },
        Some(GeekAttributeKeys::ForeignKey) => match a.value {
            Some(GeekAttributeValue::String(c)) => if split_once_spec(c@, '.') is Some {
                None
            } else {
                Some("The `foreign_key` attribute requires a table.column value"@)
            },
            Some(_) => Some("The `foreign_key` attribute requires a string value"@),
            None => Some("The `foreign_key` attribute requires a value"@),
        },
        Some(GeekAttributeKeys::HashAlgorithm) => match a.value {
            Some(GeekAttributeValue::String(c)) => if algorithms.contains(c@) {
                None
            } else {
                Some("The `hash_algorithm` attribute requires a supported hashing algorithm"@)
            },
            Some(_) => Some("The `hash_algorithm` attribute requires a string value"@),
            None => Some("The `hash_algorithm` attribute requires a value"@),
        },
        _ => None,
    }
}

/// The attribute an item parses as, or the message it is refused with.
pub open spec fn parse_spec(item: AttributeItem, f: DeriveFeatures) -> Result<GeekAttribute, Seq<char>> {
    match attribute_key(item.name@, f) {
        Ok(k) => Ok(GeekAttribute { name: item.name, key: Some(k), value: item.value }),
        Err(m) => Err(m),
    }
}

/// The attribute an item parses as when it is also valid.
pub open spec fn checked_spec(item: AttributeItem, f: DeriveFeatures, algorithms: Seq<Seq<char>>) -> Result<GeekAttribute, Seq<char>> {
    match parse_spec(item, f) {
        Ok(a) => match validate_spec(a, algorithms) {
            None => Ok(a),
            Some(m) => Err(m),
        },
        Err(m) => Err(m),
    }
}

/// The attributes of a list of items in order, or the message of the first item
/// that is refused.
pub open spec fn parse_items_spec(items: Seq<AttributeItem>, f: DeriveFeatures, algorithms: Seq<Seq<char>>) -> Result<Seq<GeekAttribute>, Seq<char>>
    decreases items.len(),
{
    if items.len() == 0 {
        Ok(Seq::empty())
    } else {
        match parse_items_spec(items.drop_last(), f, algorithms) {
            Ok(prev) => match checked_spec(items.last(), f, algorithms) {
                Ok(a) => Ok(prev.push(a)),
                Err(m) => Err(m),
            },
            Err(m) => Err(m),
        }
    }
}

/// The items of the `geekorm` attribute lists, in order.
pub open spec fn geekorm_items(groups: Seq<AttributeGroup>) -> Seq<AttributeItem>
    decreases groups.len(),
{
    if groups.len() == 0 {
        Seq::empty()
    } else if groups.last().path@ == "geekorm"@ {
        geekorm_items(groups.drop_last()) + groups.last().items@
    } else {
        geekorm_items(groups.drop_last())
    }
}

fn key_of(name: &str, f: &DeriveFeatures) -> (res: Result<GeekAttributeKeys, DeriveError>)
    ensures
        match attribute_key(name@, *f) {
            Ok(k) => res == Ok::<GeekAttributeKeys, DeriveError>(k),
            Err(m) => (res matches Err(e) && e.message@ == m),
        },
{
    if str_eq(name, "skip") {
        Ok(GeekAttributeKeys::Skip)
    } else if str_eq(name, "rename") {
        Ok(GeekAttributeKeys::Rename)
    } else if str_eq(name, "primary_key") {
        Ok(GeekAttributeKeys::PrimaryKey)
    } else if str_eq(name, "auto_increment") {
        Ok(GeekAttributeKeys::AutoIncrement)
    } else if str_eq(name, "not_null") {
        Ok(GeekAttributeKeys::NotNull)
    } else if str_eq(name, "unique") {
        Ok(GeekAttributeKeys::Unique)
    } else if str_eq(name, "foreign_key") {
        Ok(GeekAttributeKeys::ForeignKey)
    } else if str_eq(name, "key") {
        Ok(GeekAttributeKeys::Key)
    } else if str_eq(name, "disable") {
        Ok(GeekAttributeKeys::Disable)
    } else if str_eq(name, "new") {
        if f.new { Ok(GeekAttributeKeys::New) } else { Err(feature_error(name, "new")) }
    } else if str_eq(name, "rand") {
        if f.rand { Ok(GeekAttributeKeys::Rand) } else { Err(feature_error(name, "rand")) }
    } else if str_eq(name, "rand_length") {
        if f.rand { Ok(GeekAttributeKeys::RandLength) } else { Err(feature_error(name, "rand")) }
    } else if str_eq(name, "rand_prefix") {
        if f.rand { Ok(GeekAttributeKeys::RandPrefix) } else { Err(feature_error(name, "rand")) }
    } else if str_eq(name, "rand_env") {
        if f.rand { Ok(GeekAttributeKeys::RandEnv) } else { Err(feature_error(name, "rand")) }
    } else if str_eq(name, "hash") || str_eq(name, "password") {
        if f.hash {
            Ok(GeekAttributeKeys::Hash)
        } else {
            Err(feature_error("hash` or `password", "hash"))
        }
    } else if str_eq(name, "hash_algorithm") {
        if f.hash { Ok(GeekAttributeKeys::HashAlgorithm) } else { Err(feature_error(name, "hash")) }
    } else {
        let mut m = owned("Unknown attribute `");
        push_str(&mut m, name);
        push_str(&mut m, "`");
        Err(DeriveError { message: m })
    }
}

fn feature_error(attribute: &str, feature: &str) -> (res: DeriveError)
    ensures
        res.message@ == feature_message(attribute@, feature@),
{
    let mut m = owned("The `");
    push_str(&mut m, attribute);
    push_str(&mut m, "` attribute requires the `");
    push_str(&mut m, feature);
    push_str(&mut m, "` feature to be enabled");
    DeriveError { message: m }
}

fn message(m: &str) -> (res: DeriveError)
    ensures
        res.message@ == m@,
{
    DeriveError { message: owned(m) }
}

/// Whether `name` is one of `algorithms`.
fn contains_name(algorithms: &Vec<String>, name: &str) -> (res: bool)
    ensures
        res == crate::text::string_views(algorithms@).contains(name@),
{
    let ghost views = crate::text::string_views(algorithms@);
    let mut i: usize = 0;
    while i < algorithms.len()
        invariant
            i <= algorithms.len(),
            views == crate::text::string_views(algorithms@),
            forall|j: int| 0 <= j < i ==> views[j] != name@,
        decreases algorithms.len() - i,
    {
        if str_eq(algorithms[i].as_str(), name) {
            assert(views[i as int] == name@);
            return true;
        }
        i += 1;
    }
    false
}

impl GeekAttribute {
    /// Parses one attribute item.
    pub fn parse(item: AttributeItem, features: &DeriveFeatures) -> (res: Result<GeekAttribute, DeriveError>)
        ensures
            match parse_spec(item, *features) {
                Ok(a) => res == Ok::<GeekAttribute, DeriveError>(a),
                Err(m) => (res matches Err(e) && e.message@ == m),
            },
    {
        let key = key_of(item.name.as_str(), features);
        match key {
            Ok(k) => Ok(GeekAttribute { name: item.name, key: Some(k), value: item.value }),
            Err(e) => Err(e),
        }
    }

    /// Checks the attribute's value; `algorithms` are the names of the supported
    /// hashing algorithms.
    pub fn validate(&self, algorithms: &Vec<String>) -> (res: Result<(), DeriveError>)
        ensures
            match validate_spec(*self, crate::text::string_views(algorithms@)) {
                None => res is Ok,
                Some(m) => (res matches Err(e) && e.message@ == m),
            },
    {
        match self.key {
            Some(GeekAttributeKeys::PrimaryKey) => {
                if self.value.is_some() {
                    Err(message("The `primary_key` attribute does not require a value"))
                } else {
                    Ok(())
                }
            },
            Some(GeekAttributeKeys::New) => match &self.value {
                Some(GeekAttributeValue::Int(_)) => Err(message("The `new` attribute requires a string value")),
                Some(_) => Ok(()),
                None => Err(message("The `new` attribute requires a value")),
            },
            Some(GeekAttributeKeys::ForeignKey) => match &self.value {
                Some(GeekAttributeValue::String(content)) => {
                    if split_once(content.as_str(), '.').is_some() {
                        Ok(())
                    } else {
                        Err(message("The `foreign_key` attribute requires a table.column value"))
                    }
                },
                Some(_) => Err(message("The `foreign_key` attribute requires a string value")),
                None => Err(message("The `foreign_key` attribute requires a value")),
            },
            Some(GeekAttributeKeys::HashAlgorithm) => match &self.value {
                Some(GeekAttributeValue::String(content)) => {
                    if contains_name(algorithms, content.as_str()) {
                        Ok(())
                    } else {
                        Err(message("The `hash_algorithm` attribute requires a supported hashing algorithm"))
                    }
                },
                Some(_) => Err(message("The `hash_algorithm` attribute requires a string value")),
                None => Err(message("The `hash_algorithm` attribute requires a value")),
            },
            _ => Ok(()),
        }
    }

    /// Parses and checks the items of the field's `geekorm` attribute lists, in
    /// order, failing at the first one refused; lists of other attributes are
    /// passed over.
    pub fn parse_all(all_attrs: &Vec<AttributeGroup>, features: &DeriveFeatures, algorithms: &Vec<String>) -> (res: Result<Vec<GeekAttribute>, DeriveError>)
        ensures
            match parse_items_spec(geekorm_items(all_attrs@), *features, crate::text::string_views(algorithms@)) {
                Ok(attrs) => (res matches Ok(v) && v@ == attrs),
                Err(m) => (res matches Err(e) && e.message@ == m),
            },
    {
        let ghost algs = crate::text::string_views(algorithms@);
        let ghost groups = all_attrs@;
        let mut parsed: Vec<GeekAttribute> = Vec::new();
        let mut g: usize = 0;
        while g < all_attrs.len()
            invariant
                g <= all_attrs.len(),
                groups == all_attrs@,
                algs == crate::text::string_views(algorithms@),
                parse_items_spec(geekorm_items(groups.take(g as int)), *features, algs) == Ok::<Seq<GeekAttribute>, Seq<char>>(parsed@),
            decreases all_attrs.len() - g,
        {
            assert(groups.take(g + 1).drop_last() =~= groups.take(g as int));
            let group = &all_attrs[g];
            if str_eq(group.path.as_str(), "geekorm") {
                let ghost before = geekorm_items(groups.take(g as int));
                let mut i: usize = 0;
                while i < group.items.len()
                    invariant
                        i <= group.items.len(),
                        g < all_attrs.len(),
                        group == all_attrs[g as int],
                        group.path@ == "geekorm"@,
                        groups == all_attrs@,
                        algs == crate::text::string_views(algorithms@),
                        before == geekorm_items(groups.take(g as int)),
                        parse_items_spec(before + group.items@.take(i as int), *features, algs) == Ok::<Seq<GeekAttribute>, Seq<char>>(parsed@),
                    decreases group.items.len() - i,
                {
                    let ghost done = before + group.items@.take(i as int);
                    assert((before + group.items@.take(i + 1)).drop_last() =~= done);
                    assert((before + group.items@.take(i + 1)).last() == group.items@[i as int]);
                    let item = &group.items[i];
                    let copy = AttributeItem { name: item.name.clone(), value: copy_value(&item.value) };
                    let attr = match GeekAttribute::parse(copy, features) {
                        Ok(a) => a,
                        Err(e) => {
                            proof { lemma_error_in_group(groups, g as int, i as int, *features, algs); }
                            return Err(e);
                        },
                    };
                    match attr.validate(algorithms) {
                        Ok(_) => {},
                        Err(e) => {
                            proof { lemma_error_in_group(groups, g as int, i as int, *features, algs); }
                            return Err(e);
                        },
                    }
                    parsed.push(attr);
                    i += 1;
                }
                assert(group.items@.take(group.items.len() as int) =~= group.items@);
            }
            g += 1;
        }
        assert(groups.take(groups.len() as int) =~= groups);
        Ok(parsed)
    }
}

/// The `geekorm` items of two lists of attribute lists one after the other.
proof fn lemma_geekorm_items_concat(a: Seq<AttributeGroup>, b: Seq<AttributeGroup>)
    ensures
        geekorm_items(a + b) == geekorm_items(a) + geekorm_items(b),
    decreases b.len(),
{
    if b.len() == 0 {
        assert(a + b =~= a);
        assert(geekorm_items(a) + geekorm_items(b) =~= geekorm_items(a));
    } else {
        lemma_geekorm_items_concat(a, b.drop_last());
        assert((a + b).drop_last() =~= a + b.drop_last());
        assert((a + b).last() == b.last());
        if b.last().path@ == "geekorm"@ {
            assert(geekorm_items(a) + geekorm_items(b.drop_last()) + b.last().items@ =~= geekorm_items(a)
                + (geekorm_items(b.drop_last()) + b.last().items@));
        }
    }
}

/// An item refused inside the `geekorm` list at position `g` refuses the whole
/// field with its message.
proof fn lemma_error_in_group(groups: Seq<AttributeGroup>, g: int, i: int, f: DeriveFeatures, algorithms: Seq<Seq<char>>)
    requires
        0 <= g < groups.len(),
        groups[g].path@ == "geekorm"@,
        0 <= i < groups[g].items@.len(),
        parse_items_spec(geekorm_items(groups.take(g)) + groups[g].items@.take(i + 1), f, algorithms) is Err,
    ensures
        parse_items_spec(geekorm_items(groups), f, algorithms) == parse_items_spec(
            geekorm_items(groups.take(g)) + groups[g].items@.take(i + 1),
            f,
            algorithms,
        ),
{
    let items = groups[g].items@;
    let before = geekorm_items(groups.take(g));
    let prefix = before + items.take(i + 1);
    assert(groups.take(g + 1) + groups.skip(g + 1) =~= groups);
    lemma_geekorm_items_concat(groups.take(g + 1), groups.skip(g + 1));
    assert(groups.take(g + 1).drop_last() =~= groups.take(g));
    assert(groups.take(g + 1).last() == groups[g]);
    let later = geekorm_items(groups.skip(g + 1));
    assert(geekorm_items(groups) == before + items + later);
    assert(before + items + later =~= prefix + (items.skip(i + 1) + later));
    lemma_error_extends(prefix, items.skip(i + 1) + later, f, algorithms);
}

proof fn lemma_error_extends(prefix: Seq<AttributeItem>, rest: Seq<AttributeItem>, f: DeriveFeatures, algorithms: Seq<Seq<char>>)
    requires
        parse_items_spec(prefix, f, algorithms) is Err,
    ensures
        parse_items_spec(prefix + rest, f, algorithms) == parse_items_spec(prefix, f, algorithms),
    decreases rest.len(),
{
    if rest.len() == 0 {
        assert(prefix + rest =~= prefix);
    } else {
        lemma_error_extends(prefix, rest.drop_last(), f, algorithms);
        assert((prefix + rest).drop_last() =~= prefix + rest.drop_last());
    }
}

} // verus!
