//! The text of each variant of a derived data enum, and the variant a text
//! names.
//!
//! A variant is written as its `#[geekorm(key = ..)]` text when it has one, as
//! its identifier otherwise; a text reads back as the first variant written so,
//! and as the enum's default when none is.
use vstd::prelude::*;
use crate::text::{first_index, lemma_first_index, owned, signed_decimal, str_eq, string_views};
use crate::values::value::i64_to_string;
use super::{DeriveError, DeriveFeatures};
use super::attr::{AttributeGroup, GeekAttribute, GeekAttributeKeys, GeekAttributeValue, geekorm_items, parse_items_spec};
use super::column::has_key;

verus! {

/// An enum variant of a derived data type.
#[derive(Debug)]
pub struct VariantDef {
    /// The variant's identifier
    pub ident: String,
    /// The variant has no fields
    pub unit: bool,
    /// The variant has an explicit discriminant
    pub discriminant: bool,
    /// The variant's attribute lists
    pub attrs: Vec<AttributeGroup>,
}

/// An identifier without the `r#` of a raw identifier.
pub open spec fn unraw(ident: Seq<char>) -> Seq<char> {
    if ident.len() >= 2 && ident[0] == 'r' && ident[1] == '#' { ident.skip(2) } else { ident }
}

/// The text of a variant: its first `key` attribute's string or integer, else its
/// identifier; a `key` of another kind is refused.
pub open spec fn key_spec(attrs: Seq<GeekAttribute>, ident: Seq<char>) -> Result<Seq<char>, Seq<char>> {
    match first_index(attrs, has_key(GeekAttributeKeys::Key)) {
        Some(i) => match attrs[i].value {
            Some(GeekAttributeValue::String(v)) => Ok(v@),
            Some(GeekAttributeValue::Int(n)) => Ok(signed_decimal(n as int)),
            _ => Err("Expected string or int value for `rename` attribute"@),
        },
        None => Ok(unraw(ident)),
    }
}

/// The texts of the variants in order, or the message of the first variant
/// refused: variants with fields or explicit discriminants, and attributes that
/// fail to parse.
pub open spec fn variant_keys_spec(variants: Seq<VariantDef>, f: DeriveFeatures, algorithms: Seq<Seq<char>>) -> Result<Seq<Seq<char>>, Seq<char>>
    decreases variants.len(),
{
    if variants.len() == 0 {
        Ok(Seq::empty())
    } else {
        match variant_keys_spec(variants.drop_last(), f, algorithms) {
            Err(m) => Err(m),
            Ok(prev) => {
                let v = variants.last();
                if !v.unit {
                    Err("Only unit variants are supported"@)
                } else if v.discriminant {
                    Err("Discriminant values are not supported"@)
                } else {
                    match parse_items_spec(geekorm_items(v.attrs@), f, algorithms) {
                        Err(m) => Err(m),
                        Ok(a) => match key_spec(a, v.ident@) {
                            Ok(k) => Ok(prev.push(k)),
                            Err(m) => Err(m),
                        },
                    }
                }
            },
        }
    }
}

/// The predicate "is the text `s`".
pub open spec fn is_text(s: Seq<char>) -> spec_fn(Seq<char>) -> bool {
    |k: Seq<char>| k == s
}

/// The text of a variant.
pub fn variant_key(attrs: &Vec<GeekAttribute>, ident: &str) -> (res: Result<String, DeriveError>)
    ensures
        match key_spec(attrs@, ident@) {
            Ok(k) => (res matches Ok(s) && s@ == k),
            Err(m) => (res matches Err(e) && e.message@ == m),
        },
{
    let mut i: usize = 0;
    while i < attrs.len()
        invariant
            i <= attrs.len(),
            forall|j: int| 0 <= j < i ==> !has_key(GeekAttributeKeys::Key)(#[trigger] attrs@[j]),
        decreases attrs.len() - i,
    {
        if attrs[i].key == Some(GeekAttributeKeys::Key) {
            proof { lemma_first_index(attrs@, has_key(GeekAttributeKeys::Key), i as int); }
            return match &attrs[i].value {
                Some(GeekAttributeValue::String(v)) => Ok(v.clone()),
                Some(GeekAttributeValue::Int(n)) => Ok(i64_to_string(*n)),
                _ => Err(DeriveError { message: owned("Expected string or int value for `rename` attribute") }),
            };
        }
        i += 1;
    }
    proof { lemma_first_index(attrs@, has_key(GeekAttributeKeys::Key), i as int); }
    let len = ident.unicode_len();
    if len >= 2 && ident.get_char(0) == 'r' && ident.get_char(1) == '#' {
        let rest = ident.substring_char(2, len);
        assert(rest@ =~= ident@.skip(2));
        Ok(owned(rest))
    } else {
        Ok(owned(ident))
    }
}

/// The texts of the variants of a data enum, in order; `algorithms` are the names
/// of the supported hashing algorithms.
pub fn variant_keys(variants: &Vec<VariantDef>, features: &DeriveFeatures, algorithms: &Vec<String>) -> (res: Result<Vec<String>, DeriveError>)
    ensures
        match variant_keys_spec(variants@, *features, string_views(algorithms@)) {
            Ok(keys) => (res matches Ok(v) && string_views(v@) == keys),
            Err(m) => (res matches Err(e) && e.message@ == m),
        },
{
    let ghost algs = string_views(algorithms@);
    let mut keys: Vec<String> = Vec::new();
    assert(string_views(keys@) =~= Seq::<Seq<char>>::empty());
    assert(variants@.take(0) =~= Seq::<VariantDef>::empty());
    let mut i: usize = 0;
    while i < variants.len()
        invariant
            i <= variants.len(),
            algs == string_views(algorithms@),
            variant_keys_spec(variants@.take(i as int), *features, algs) == Ok::<Seq<Seq<char>>, Seq<char>>(string_views(keys@)),
        decreases variants.len() - i,
    {
        let ghost prefix = variants@.take(i + 1);
        assert(prefix.drop_last() =~= variants@.take(i as int));
        assert(prefix.last() == variants@[i as int]);
        let v = &variants[i];
        if !v.unit {
            proof { lemma_keys_error_extends(prefix, variants@.skip(i + 1), *features, algs); assert(prefix + variants@.skip(i + 1) =~= variants@); }
            return Err(DeriveError { message: owned("Only unit variants are supported") });
        }
        if v.discriminant {
            proof { lemma_keys_error_extends(prefix, variants@.skip(i + 1), *features, algs); assert(prefix + variants@.skip(i + 1) =~= variants@); }
            return Err(DeriveError { message: owned("Discriminant values are not supported") });
        }
        let attrs = match GeekAttribute::parse_all(&v.attrs, features, algorithms) {
            Ok(a) => a,
            Err(e) => {
                proof { lemma_keys_error_extends(prefix, variants@.skip(i + 1), *features, algs); assert(prefix + variants@.skip(i + 1) =~= variants@); }
                return Err(e);
            },
        };
        let key = match variant_key(&attrs, v.ident.as_str()) {
            Ok(k) => k,
            Err(e) => {
                proof { lemma_keys_error_extends(prefix, variants@.skip(i + 1), *features, algs); assert(prefix + variants@.skip(i + 1) =~= variants@); }
                return Err(e);
            },
        };
        let ghost before = keys@;
        keys.push(key);
        assert(string_views(keys@) =~= string_views(before).push(keys@.last()@));
        i += 1;
    }
    assert(variants@.take(variants.len() as int) =~= variants@);
    Ok(keys)
}

proof fn lemma_keys_error_extends(prefix: Seq<VariantDef>, rest: Seq<VariantDef>, f: DeriveFeatures, algorithms: Seq<Seq<char>>)
    requires
        variant_keys_spec(prefix, f, algorithms) is Err,
    ensures
        variant_keys_spec(prefix + rest, f, algorithms) == variant_keys_spec(prefix, f, algorithms),
    decreases rest.len(),
{
    if rest.len() == 0 {
        assert(prefix + rest =~= prefix);
    } else {
        lemma_keys_error_extends(prefix, rest.drop_last(), f, algorithms);
        assert((prefix + rest).drop_last() =~= prefix + rest.drop_last());
    }
}

/// The variant a text names: the first whose text it is; `None` reads as the
/// enum's default.
pub fn variant_from_key(keys: &Vec<String>, text: &str) -> (res: Option<usize>)
    ensures
        match first_index(string_views(keys@), is_text(text@)) {
            Some(i) => res is Some && res.unwrap() as int == i,
            None => res is None,
        },
{
    let ghost views = string_views(keys@);
    let mut i: usize = 0;
    while i < keys.len()
        invariant
            i <= keys.len(),
            views == string_views(keys@),
            forall|j: int| 0 <= j < i ==> !is_text(text@)(#[trigger] views[j]),
        decreases keys.len() - i,
    {
        if str_eq(keys[i].as_str(), text) {
            proof { lemma_first_index(views, is_text(text@), i as int); }
            return Some(i);
        }
        i += 1;
    }
    proof { lemma_first_index(views, is_text(text@), i as int); }
    None
}

/// Whether the enum's attributes turn off reading variants from text
/// (`#[geekorm(disable = "from_string")]`).
pub fn disables_from_string(attrs: &Vec<GeekAttribute>) -> (res: bool)
    ensures
        res == exists|i: int| 0 <= i < attrs@.len() && #[trigger] attrs@[i].key == Some(GeekAttributeKeys::Disable)
            && (attrs@[i].value matches Some(GeekAttributeValue::String(v)) && v@ == "from_string"@),
{
    let mut i: usize = 0;
    while i < attrs.len()
        invariant
            i <= attrs.len(),
            forall|j: int| 0 <= j < i ==> !(#[trigger] attrs@[j].key == Some(GeekAttributeKeys::Disable)
                && (attrs@[j].value matches Some(GeekAttributeValue::String(v)) && v@ == "from_string"@)),
        decreases attrs.len() - i,
    {
        if attrs[i].key == Some(GeekAttributeKeys::Disable) {
            match &attrs[i].value {
                Some(GeekAttributeValue::String(v)) => {
                    if str_eq(v.as_str(), "from_string") {
                        return true;
                    }
                },
                _ => {},
            }
        }
        i += 1;
    }
    false
}

/// With distinct texts, the text of a variant reads back as that variant.
pub proof fn lemma_key_names_its_variant(keys: Seq<Seq<char>>, i: int)
    requires
        0 <= i < keys.len(),
        forall|j: int, k: int| 0 <= j < k < keys.len() ==> keys[j] != keys[k],
    ensures
        first_index(keys, is_text(keys[i])) == Some(i),
{
    assert forall|j: int| 0 <= j < i implies !is_text(keys[i])(#[trigger] keys[j]) by {}
    lemma_first_index(keys, is_text(keys[i]), i);
}

} // verus!
