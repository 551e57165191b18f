//! The columns a derived table makes of its fields.
use vstd::prelude::*;
use crate::builder::columns::opt_view;
use crate::text::{
    decimal_usize, first_index, lemma_first_index, owned, parse_decimal, push_str, split_once,
    split_once_spec, str_eq,
};
use super::{DeriveError, DeriveFeatures};
use super::attr::{AttributeGroup, GeekAttribute, GeekAttributeKeys, GeekAttributeValue, geekorm_items, parse_items_spec};
use super::columntypes::{
    ColumnOptionsDerive, ColumnTypeDerive, FieldType, GenericArg, default_options, parse_path,
    parse_path_ready, parse_path_spec,
};

verus! {

/// How the value of a column is made when a row is created.
#[derive(Debug, PartialEq, Eq)]
pub enum ColumnMode {
    /// Given to, or written into, the generated constructor
    New {
        /// Whether the constructor sets the column
        enabled: bool,
        /// The expression the constructor writes, if any
        data: Option<String>,
    },
    /// A random string
    Rand {
        /// Length of the string
        len: usize,
        /// Prefix of the string
        prefix: Option<String>,
        /// Environment part of the string
        env: Option<String>,
    },
    /// A hash of the value given (PBKDF2)
    Hash,
    /// The column can be searched
    Searchable {
        /// Whether the column can be searched
        enabled: bool,
    },
}

/// The mathematical content of a [`ColumnMode`].
pub enum ColumnModeView {
    /// Given to, or written into, the generated constructor
    New { enabled: bool, data: Option<Seq<char>> },
    /// A random string
    Rand { len: usize, prefix: Option<Seq<char>>, env: Option<Seq<char>> },
    /// A hash of the value given
    Hash,
    /// The column can be searched
    Searchable { enabled: bool },
}

impl View for ColumnMode {
    type V = ColumnModeView;

    open spec fn view(&self) -> ColumnModeView {
        match self {
            ColumnMode::New { enabled, data } => ColumnModeView::New { enabled: *enabled, data: opt_view(*data) },
            ColumnMode::Rand { len, prefix, env } => ColumnModeView::Rand {
                len: *len,
                prefix: opt_view(*prefix),
                env: opt_view(*env),
            },
            ColumnMode::Hash => ColumnModeView::Hash,
            ColumnMode::Searchable { enabled } => ColumnModeView::Searchable { enabled: *enabled },
        }
    }
}

/// The view of an optional mode.
pub open spec fn mode_view(m: Option<ColumnMode>) -> Option<ColumnModeView> {
    match m {
        Some(x) => Some(x@),
        None => None,
    }
}

/// A field of a derived table and the column it becomes.
#[derive(Debug)]
pub struct ColumnDerive {
    /// The field's identifier
    pub identifier: String,
    /// The field's type
    pub itype: FieldType,
    /// The field's attributes
    pub attributes: Vec<GeekAttribute>,
    /// Name to be used in the database
    pub name: String,
    /// Alias given by a `rename` attribute
    pub alias: String,
    /// Column type
    pub coltype: ColumnTypeDerive,
    /// Column options
    pub options: ColumnOptionsDerive,
    /// Foreign key target, written `table.column`
    pub foreign_key: Option<String>,
    /// Skip the column
    pub skip: bool,
    /// The expression the column is set to on each update
    pub update: Option<String>,
    /// The expression the column is set to on each save
    pub save: Option<String>,
    /// How the value is made
    pub mode: Option<ColumnMode>,
}

/// What the attributes of a field decide about its column.
pub struct ColumnDeriveView {
    /// Alias given by a `rename` attribute
    pub alias: Seq<char>,
    /// Column type
    pub coltype: ColumnTypeDerive,
    /// Column options
    pub options: ColumnOptionsDerive,
    /// Foreign key target
    pub foreign_key: Option<Seq<char>>,
    /// Skip the column
    pub skip: bool,
    /// The expression the column is set to on each update
    pub update: Option<Seq<char>>,
    /// The expression the column is set to on each save
    pub save: Option<Seq<char>>,
    /// How the value is made
    pub mode: Option<ColumnModeView>,
}

impl View for ColumnDerive {
    type V = ColumnDeriveView;

    open spec fn view(&self) -> ColumnDeriveView {
        ColumnDeriveView {
            alias: self.alias@,
            coltype: self.coltype,
            options: self.options,
            foreign_key: opt_view(self.foreign_key),
            skip: self.skip,
            update: opt_view(self.update),
            save: opt_view(self.save),
            mode: mode_view(self.mode),
        }
    }
}

/// The predicate "the attribute sets `key`".
pub open spec fn has_key(key: GeekAttributeKeys) -> spec_fn(GeekAttribute) -> bool {
    |a: GeekAttribute| a.key == Some(key)
}

/// The length of a random value: the first `rand_length` attribute's integer,
/// taken as an unsigned number, or the number its string writes in decimal
/// (`rand_length = "42"`); 32 without one, or where its value is neither.
pub open spec fn rand_len(all: Seq<GeekAttribute>) -> usize {
    match first_index(all, has_key(GeekAttributeKeys::RandLength)) {
        Some(i) => match all[i].value {
            Some(GeekAttributeValue::Int(l)) => l as usize,
            Some(GeekAttributeValue::String(s)) => match decimal_usize(s@) {
                Some(n) => n,
                None => 32,
            },
            _ => 32,
        },
        None => 32,
    }
}

/// The string of the first attribute setting `key`, if it holds a string.
pub open spec fn string_of(all: Seq<GeekAttribute>, key: GeekAttributeKeys) -> Option<Seq<char>> {
    match first_index(all, has_key(key)) {
        Some(i) => match all[i].value {
            Some(GeekAttributeValue::String(s)) => Some(s@),
            _ => None,
        },
        None => None,
    }
}

/// The text of a boolean, `true` or `false`.
pub open spec fn bool_text(b: bool) -> Seq<char> {
    if b { "true"@ } else { "false"@ }
}

/// Writes a boolean as `true` or `false`.
pub fn bool_string(b: bool) -> (res: String)
    ensures
        res@ == bool_text(b),
{
    if b { owned("true") } else { owned("false") }
}

/// The column after one attribute, or the message it is refused with; `all` are
/// all the attributes of the field.
pub open spec fn apply_spec(v: ColumnDeriveView, a: GeekAttribute, all: Seq<GeekAttribute>) -> Result<ColumnDeriveView, Seq<char>> {
    match a.key {
        Some(GeekAttributeKeys::Skip) => Ok(ColumnDeriveView { skip: true, ..v }),
        Some(GeekAttributeKeys::Unique) => Ok(ColumnDeriveView {
            options: ColumnOptionsDerive { unique: true, ..v.options },
            mode: Some(ColumnModeView::Searchable { enabled: true }),
            ..v
        }),
        Some(GeekAttributeKeys::New) => match a.value {
            Some(GeekAttributeValue::String(c)) => Ok(ColumnDeriveView {
                mode: Some(ColumnModeView::New { enabled: true, data: Some(c@) }),
                ..v
            }),
            Some(GeekAttributeValue::Bool(b)) => Ok(ColumnDeriveView {
                mode: Some(ColumnModeView::New { enabled: b, data: None }),
                ..v
            }),
            _ => Ok(v),
        },
        Some(GeekAttributeKeys::Rename) => match a.value {
            Some(GeekAttributeValue::String(n)) => Ok(ColumnDeriveView { alias: n@, ..v }),
            _ => Ok(v),
        },
        Some(GeekAttributeKeys::PrimaryKey) => if v.options.primary_key {
            Ok(v)
        } else {
            Ok(ColumnDeriveView {
                coltype: ColumnTypeDerive::Integer,
                options: ColumnOptionsDerive { primary_key: true, auto_increment: true, ..default_options() },
                ..v
            })
        },
        Some(GeekAttributeKeys::AutoIncrement) => match a.value {
            Some(GeekAttributeValue::Bool(b)) => Ok(ColumnDeriveView {
                options: ColumnOptionsDerive { auto_increment: b, ..v.options },
                ..v
            }),
            None => Ok(ColumnDeriveView { options: ColumnOptionsDerive { auto_increment: true, ..v.options }, ..v }),
            _ => Ok(v),
        },
        Some(GeekAttributeKeys::NotNull) => Ok(ColumnDeriveView {
            options: ColumnOptionsDerive { not_null: true, ..v.options },
            ..v
        }),
        Some(GeekAttributeKeys::ForeignKey) => match a.value {
            Some(GeekAttributeValue::String(n)) => match split_once_spec(n@, '.') {
                Some((t, c)) => Ok(ColumnDeriveView {
                    coltype: ColumnTypeDerive::ForeignKey,
                    options: default_options(),
                    foreign_key: Some(t + "."@ + c),
                    ..v
                }),
                None => Err("Invalid foreign key format (table.column)"@),
            },
            _ => Ok(v),
        },
        Some(GeekAttributeKeys::Rand) => Ok(ColumnDeriveView {
            mode: Some(ColumnModeView::Rand {
                len: rand_len(all),
                prefix: string_of(all, GeekAttributeKeys::RandPrefix),
                env: string_of(all, GeekAttributeKeys::RandEnv),
            }),
            ..v
        }),
        Some(GeekAttributeKeys::Hash) => Ok(ColumnDeriveView { mode: Some(ColumnModeView::Hash), ..v }),
        Some(GeekAttributeKeys::OnValidate) => match a.value {
            Some(GeekAttributeValue::Bool(b)) => Ok(ColumnDeriveView {
                save: Some(bool_text(b)),
                update: Some(bool_text(b)),
                ..v
            }),
            _ => Ok(v),
        },
        Some(GeekAttributeKeys::OnUpdate) => match a.value {
            Some(GeekAttributeValue::String(e)) => Ok(ColumnDeriveView { update: Some(e@), ..v }),
            _ => Ok(v),
        },
        Some(GeekAttributeKeys::OnSave) => match a.value {
            Some(GeekAttributeValue::String(e)) => Ok(ColumnDeriveView { save: Some(e@), ..v }),
            _ => Ok(v),
        },
        Some(GeekAttributeKeys::Searchable) => Ok(ColumnDeriveView {
            mode: Some(ColumnModeView::Searchable { enabled: true }),
            ..v
        }),
        _ => Ok(v),
    }
}

/// The column after the attributes in order, or the message of the first one
/// refused.
pub open spec fn apply_all_spec(v: ColumnDeriveView, attrs: Seq<GeekAttribute>, all: Seq<GeekAttribute>) -> Result<ColumnDeriveView, Seq<char>>
    decreases attrs.len(),
{
    if attrs.len() == 0 {
        Ok(v)
    } else {
        match apply_all_spec(v, attrs.drop_last(), all) {
            Ok(w) => apply_spec(w, attrs.last(), all),
            Err(m) => Err(m),
        }
    }
}

proof fn lemma_apply_error_extends(v: ColumnDeriveView, attrs: Seq<GeekAttribute>, rest: Seq<GeekAttribute>, all: Seq<GeekAttribute>)
    requires
        apply_all_spec(v, attrs, all) is Err,
    ensures
        apply_all_spec(v, attrs + rest, all) == apply_all_spec(v, attrs, all),
    decreases rest.len(),
{
    if rest.len() == 0 {
        assert(attrs + rest =~= attrs);
    } else {
        lemma_apply_error_extends(v, attrs, rest.drop_last(), all);
        assert((attrs + rest).drop_last() =~= attrs + rest.drop_last());
    }
}

fn first_with_key(all: &Vec<GeekAttribute>, key: GeekAttributeKeys) -> (res: Option<usize>)
    ensures
        match first_index(all@, has_key(key)) {
            Some(i) => res is Some && res.unwrap() as int == i,
            None => res is None,
        },
        res matches Some(i) ==> i < all@.len(),
{
    let mut i: usize = 0;
    while i < all.len()
        invariant
            i <= all.len(),
            forall|j: int| 0 <= j < i ==> !has_key(key)(#[trigger] all@[j]),
        decreases all.len() - i,
    {
        if all[i].key == Some(key) {
            proof { lemma_first_index(all@, has_key(key), i as int); }
            return Some(i);
        }
        i += 1;
    }
    proof { lemma_first_index(all@, has_key(key), i as int); }
    None
}

fn string_with_key(all: &Vec<GeekAttribute>, key: GeekAttributeKeys) -> (res: Option<String>)
    ensures
        opt_view(res) == string_of(all@, key),
{
    match first_with_key(all, key) {
        Some(i) => match &all[i].value {
            Some(GeekAttributeValue::String(s)) => Some(s.clone()),
            _ => None,
        },
        None => None,
    }
}

/// What the generated constructor writes for a field.
#[derive(Debug, PartialEq, Eq)]
pub enum FieldInit {
    /// The type's default value
    Default,
    /// The expression given by the `new` attribute
    Data(String),
    /// A random string of the length, starting with the prefix
    Random {
        /// Length of the string
        len: usize,
        /// Prefix of the string
        prefix: String,
    },
    /// The hash of the argument
    Hash,
    /// `None`
    NoneValue,
    /// A new primary key
    PrimaryKey,
    /// A foreign key from the argument
    ForeignKey,
    /// The argument, converted
    Into,
}

/// The mathematical content of a [`FieldInit`].
pub enum FieldInitView {
    /// The type's default value
    Default,
    /// The expression given by the `new` attribute
    Data(Seq<char>),
    /// A random string
    Random { len: usize, prefix: Seq<char> },
    /// The hash of the argument
    Hash,
    /// `None`
    NoneValue,
    /// A new primary key
    PrimaryKey,
    /// A foreign key from the argument
    ForeignKey,
    /// The argument, converted
    Into,
}

impl View for FieldInit {
    type V = FieldInitView;

    open spec fn view(&self) -> FieldInitView {
        match self {
            FieldInit::Default => FieldInitView::Default,
            FieldInit::Data(d) => FieldInitView::Data(d@),
            FieldInit::Random { len, prefix } => FieldInitView::Random { len: *len, prefix: prefix@ },
            FieldInit::Hash => FieldInitView::Hash,
            FieldInit::NoneValue => FieldInitView::NoneValue,
            FieldInit::PrimaryKey => FieldInitView::PrimaryKey,
            FieldInit::ForeignKey => FieldInitView::ForeignKey,
            FieldInit::Into => FieldInitView::Into,
        }
    }
}

/// The argument the generated constructor takes for a field.
#[derive(Debug, Clone, Copy, PartialEq, Eq, Structural)]
pub enum FieldParam {
    /// A value convertible into the field's type
    Into,
    /// A value convertible into the first generic argument of a `ForeignKey`
    ForeignKeyInto,
    /// A value convertible into an `i32` key
    IntegerKeyInto,
}

/// The name of the first segment of a path type.
pub open spec fn path_name(t: FieldType) -> Option<Seq<char>> {
    match t {
        FieldType::Path { name, .. } => Some(name@),
        _ => None,
    }
}

/// A random value's prefix: the prefix and the environment part, each followed by
/// `_` when present.
pub open spec fn random_prefix(prefix: Option<Seq<char>>, env: Option<Seq<char>>) -> Seq<char> {
    (match prefix {
        Some(p) => p + "_"@,
        None => Seq::empty(),
    }) + (match env {
        Some(e) => e + "_"@,
        None => Seq::empty(),
    })
}

/// What the constructor writes for a column: its default when skipped or not set
/// by the constructor; the `new` expression; a random or hashed value; otherwise
/// by the field's type.
pub open spec fn initializer_spec(c: ColumnDerive) -> FieldInitView {
    let by_type = match path_name(c.itype) {
        Some(n) => if n == "Option"@ {
            FieldInitView::NoneValue
        } else if n == "PrimaryKey"@ || n == "PrimaryKeyInteger"@ || n == "PrimaryKeyString"@ || n
            == "PrimaryKeyUuid"@ {
            FieldInitView::PrimaryKey
        } else if n == "ForeignKey"@ {
            FieldInitView::ForeignKey
        } else {
            FieldInitView::Into
        },
        None => FieldInitView::Into,
    };
    if c.skip {
        FieldInitView::Default
    } else {
        match mode_view(c.mode) {
            Some(ColumnModeView::New { enabled, data }) => if !enabled {
                FieldInitView::Default
            } else {
                match data {
                    Some(d) => FieldInitView::Data(d),
                    None => by_type,
                }
            },
            Some(ColumnModeView::Rand { len, prefix, env }) => FieldInitView::Random {
                len,
                prefix: random_prefix(prefix, env),
            },
            Some(ColumnModeView::Hash) => FieldInitView::Hash,
            _ => by_type,
        }
    }
}

/// The constructor's argument for a column, `None` where it takes none: skipped,
/// random, or set by a `new` expression or disabled; `Option` and primary key
/// types; keys take their key type.
pub open spec fn param_spec(c: ColumnDerive) -> Option<FieldParam> {
    let set_elsewhere = match mode_view(c.mode) {
        Some(ColumnModeView::Rand { .. }) => true,
        Some(ColumnModeView::New { enabled, data }) => !enabled || data is Some,
        _ => false,
    };
    if c.skip || set_elsewhere {
        None
    } else {
        match path_name(c.itype) {
            Some(n) => if n == "Option"@ || n == "PrimaryKey"@ || n == "PrimaryKeyInteger"@ {
                None
            } else if n == "ForeignKey"@ {
                Some(FieldParam::ForeignKeyInto)
            } else if n == "ForeignKeyInteger"@ {
                Some(FieldParam::IntegerKeyInto)
            } else {
                Some(FieldParam::Into)
            },
            None => Some(FieldParam::Into),
        }
    }
}

/// A `ForeignKey` field type names its key type.
pub open spec fn params_ready(c: ColumnDerive) -> bool {
    match c.itype {
        FieldType::Path { name, argument } => name@ == "ForeignKey"@ ==> (argument is Type || argument is NotType),
        _ => true,
    }
}

/// The column has the primary key options of a text or integer type.
pub open spec fn is_primary_key_spec(v: ColumnDeriveView) -> bool {
    v.options.primary_key && (v.coltype is Text || v.coltype is Integer)
}

/// The column is unique (a boolean column never is).
pub open spec fn is_unique_spec(v: ColumnDeriveView) -> bool {
    v.options.unique && !(v.coltype is Boolean)
}

impl ColumnDerive {
    /// Applies the field's attributes to its column, in order.
    pub fn apply_attributes(&mut self) -> (res: Result<(), DeriveError>)
        ensures
            final(self).identifier == old(self).identifier,
            final(self).itype == old(self).itype,
            final(self).attributes == old(self).attributes,
            final(self).name == old(self).name,
            match apply_all_spec(old(self)@, old(self).attributes@, old(self).attributes@) {
                Ok(v) => res is Ok && final(self)@ == v,
                Err(m) => (res matches Err(e) && e.message@ == m),
            },
    {
        let ghost all = self.attributes@;
        let ghost start = self@;
        let mut i: usize = 0;
        while i < self.attributes.len()
            invariant
                i <= self.attributes.len(),
                all == self.attributes@,
                self.identifier == old(self).identifier,
                self.itype == old(self).itype,
                self.attributes == old(self).attributes,
                self.name == old(self).name,
                start == old(self)@,
                apply_all_spec(start, all.take(i as int), all) == Ok::<ColumnDeriveView, Seq<char>>(self@),
            decreases self.attributes.len() - i,
        {
            assert(all.take(i + 1).drop_last() =~= all.take(i as int));
            assert(all.take(i + 1).last() == all[i as int]);
            let key = self.attributes[i].key;
            match key {
                Some(GeekAttributeKeys::Skip) => {
                    self.skip = true;
                },
                Some(GeekAttributeKeys::Unique) => {
                    self.options.set_unique(true);
                    self.mode = Some(ColumnMode::Searchable { enabled: true });
                },
                Some(GeekAttributeKeys::New) => {
                    match &self.attributes[i].value {
                        Some(GeekAttributeValue::String(content)) => {
                            self.mode = Some(ColumnMode::New { enabled: true, data: Some(content.clone()) });
                        },
                        Some(GeekAttributeValue::Bool(b)) => {
                            self.mode = Some(ColumnMode::New { enabled: *b, data: None });
                        },
                        _ => {},
                    }
                },
                Some(GeekAttributeKeys::Rename) => {
                    match &self.attributes[i].value {
                        Some(GeekAttributeValue::String(n)) => {
                            self.alias = n.clone();
                        },
                        _ => {},
                    }
                },
                Some(GeekAttributeKeys::PrimaryKey) => {
                    if !self.options.primary_key {
                        self.coltype = ColumnTypeDerive::Integer;
                        let mut o = ColumnOptionsDerive::default();
                        o.primary_key = true;
                        o.auto_increment = true;
                        self.options = o;
                    }
                },
                Some(GeekAttributeKeys::AutoIncrement) => {
                    match &self.attributes[i].value {
                        Some(GeekAttributeValue::Bool(b)) => {
                            self.options.set_auto_increment(*b);
                        },
                        None => {
                            self.options.set_auto_increment(true);
                        },
                        _ => {},
                    }
                },
                Some(GeekAttributeKeys::NotNull) => {
                    self.options.set_notnull(true);
                },
                Some(GeekAttributeKeys::ForeignKey) => {
                    match &self.attributes[i].value {
                        Some(GeekAttributeValue::String(n)) => {
                            match split_once(n.as_str(), '.') {
                                Some((table, column)) => {
                                    let mut target = owned(table);
                                    push_str(&mut target, ".");
                                    push_str(&mut target, column);
                                    self.coltype = ColumnTypeDerive::ForeignKey;
                                    self.options = ColumnOptionsDerive::default();
                                    self.foreign_key = Some(target);
                                },
                                None => {
                                    proof {
                                        lemma_apply_error_extends(start, all.take(i + 1), all.skip(i + 1), all);
                                        assert(all.take(i + 1) + all.skip(i + 1) =~= all);
                                    }
                                    return Err(DeriveError { message: owned("Invalid foreign key format (table.column)") });
                                },
                            }
                        },
                        _ => {},
                    }
                },
                Some(GeekAttributeKeys::Rand) => {
                    let len: usize = match first_with_key(&self.attributes, GeekAttributeKeys::RandLength) {
                        Some(j) => match &self.attributes[j].value {
                            Some(GeekAttributeValue::Int(l)) => *l as usize,
                            Some(GeekAttributeValue::String(text)) => match parse_decimal(text.as_str()) {
                                Some(n) => n,
                                None => 32,
                            },
                            _ => 32,
                        },
                        None => 32,
                    };
                    let prefix = string_with_key(&self.attributes, GeekAttributeKeys::RandPrefix);
                    let env = string_with_key(&self.attributes, GeekAttributeKeys::RandEnv);
                    self.mode = Some(ColumnMode::Rand { len, prefix, env });
                },
                Some(GeekAttributeKeys::Hash) => {
                    self.mode = Some(ColumnMode::Hash);
                },
                Some(GeekAttributeKeys::OnValidate) => {
                    match &self.attributes[i].value {
                        Some(GeekAttributeValue::Bool(b)) => {
                            self.save = Some(bool_string(*b));
                            self.update = Some(bool_string(*b));
                        },
                        _ => {},
                    }
                },
                Some(GeekAttributeKeys::OnUpdate) => {
                    match &self.attributes[i].value {
                        Some(GeekAttributeValue::String(e)) => {
                            self.update = Some(e.clone());
                        },
                        _ => {},
                    }
                },
                Some(GeekAttributeKeys::OnSave) => {
                    match &self.attributes[i].value {
                        Some(GeekAttributeValue::String(e)) => {
                            self.save = Some(e.clone());
                        },
                        _ => {},
                    }
                },
                Some(GeekAttributeKeys::Searchable) => {
                    self.mode = Some(ColumnMode::Searchable { enabled: true });
                },
                _ => {},
            }
            i += 1;
        }
        assert(all.take(all.len() as int) =~= all);
        Ok(())
    }

    /// Whether the column is the table's primary key.
    pub fn is_primary_key(&self) -> (res: bool)
        ensures
            res == is_primary_key_spec(self@),
    {
        self.options.primary_key && (self.coltype == ColumnTypeDerive::Text || self.coltype == ColumnTypeDerive::Integer)
    }

    /// Whether the column is a foreign key.
    pub fn is_foreign_key(&self) -> (res: bool)
        ensures
            res == (self.coltype is ForeignKey),
    {
        self.coltype == ColumnTypeDerive::ForeignKey
    }

    /// Whether the column is unique.
    pub fn is_unique(&self) -> (res: bool)
        ensures
            res == is_unique_spec(self@),
    {
        self.options.unique && self.coltype != ColumnTypeDerive::Boolean
    }

    /// Whether the column can be searched.
    pub fn is_searchable(&self) -> (res: bool)
        ensures
            res == (mode_view(self.mode) == Some(ColumnModeView::Searchable { enabled: true })),
    {
        match &self.mode {
            Some(ColumnMode::Searchable { enabled }) => *enabled,
            _ => false,
        }
    }

    /// What the generated constructor writes for the column.
    pub fn initializer(&self) -> (res: FieldInit)
        ensures
            res@ == initializer_spec(*self),
    {
        if self.skip {
            return FieldInit::Default;
        }
        match &self.mode {
            Some(ColumnMode::New { enabled, data }) => {
                if !*enabled {
                    return FieldInit::Default;
                }
                match data {
                    Some(d) => {
                        return FieldInit::Data(d.clone());
                    },
                    None => {},
                }
            },
            Some(ColumnMode::Rand { len, prefix, env }) => {
                let ghost pv = match opt_view(*prefix) {
                    Some(p) => p + "_"@,
                    None => Seq::<char>::empty(),
                };
                let ghost ev = match opt_view(*env) {
                    Some(e) => e + "_"@,
                    None => Seq::<char>::empty(),
                };
                let mut pre = String::new();
                match prefix {
                    Some(p) => {
                        push_str(&mut pre, p.as_str());
                        push_str(&mut pre, "_");
                    },
                    None => {},
                }
                assert(pre@ =~= pv);
                match env {
                    Some(e) => {
                        push_str(&mut pre, e.as_str());
                        push_str(&mut pre, "_");
                    },
                    None => {},
                }
                assert(pre@ =~= pv + ev);
                return FieldInit::Random { len: *len, prefix: pre };
            },
            Some(ColumnMode::Hash) => {
                return FieldInit::Hash;
            },
            _ => {},
        }
        match &self.itype {
            FieldType::Path { name, .. } => {
                let n = name.as_str();
                if str_eq(n, "Option") {
                    FieldInit::NoneValue
                } else if str_eq(n, "PrimaryKey") || str_eq(n, "PrimaryKeyInteger") || str_eq(n, "PrimaryKeyString")
                    || str_eq(n, "PrimaryKeyUuid") {
                    FieldInit::PrimaryKey
                } else if str_eq(n, "ForeignKey") {
                    FieldInit::ForeignKey
                } else {
                    FieldInit::Into
                }
            },
            _ => FieldInit::Into,
        }
    }

    /// The argument the generated constructor takes for the column, if any.
    pub fn param(&self) -> (res: Option<FieldParam>)
        requires
            params_ready(*self),
        ensures
            res == param_spec(*self),
    {
        if self.skip {
            return None;
        }
        match &self.mode {
            Some(ColumnMode::Rand { .. }) => {
                return None;
            },
            Some(ColumnMode::New { enabled, data }) => {
                if !*enabled || data.is_some() {
                    return None;
                }
            },
            _ => {},
        }
        match &self.itype {
            FieldType::Path { name, .. } => {
                let n = name.as_str();
                if str_eq(n, "Option") || str_eq(n, "PrimaryKey") || str_eq(n, "PrimaryKeyInteger") {
                    None
                } else if str_eq(n, "ForeignKey") {
                    Some(FieldParam::ForeignKeyInto)
                } else if str_eq(n, "ForeignKeyInteger") {
                    Some(FieldParam::IntegerKeyInto)
                } else {
                    Some(FieldParam::Into)
                }
            },
            _ => Some(FieldParam::Into),
        }
    }

    /// The length and prefix of the value regenerated by the column's random
    /// helper: the random mode's, or 10 and no prefix.
    pub fn random_helper(&self) -> (res: (usize, String))
        ensures
            match mode_view(self.mode) {
                Some(ColumnModeView::Rand { len, prefix, .. }) => res.0 == len && res.1@ == (match prefix {
                    Some(p) => p,
                    None => Seq::empty(),
                }),
                _ => res.0 == 10 && res.1@ == Seq::<char>::empty(),
            },
    {
        match &self.mode {
            Some(ColumnMode::Rand { len, prefix, .. }) => {
                let p = match prefix {
                    Some(p) => p.clone(),
                    None => String::new(),
                };
                (*len, p)
            },
            _ => (10, String::new()),
        }
    }
}

/// What a column starts as, before its attributes apply: no alias, not skipped,
/// no mode, and the column type and options of its field type.
pub open spec fn fresh_view(ct: (ColumnTypeDerive, ColumnOptionsDerive)) -> ColumnDeriveView {
    ColumnDeriveView {
        alias: Seq::empty(),
        coltype: ct.0,
        options: ct.1,
        foreign_key: None,
        skip: false,
        update: None,
        save: None,
        mode: None,
    }
}

impl ColumnDerive {
    /// The column of a struct field: its identifier (a tuple field has none), its
    /// type, and its attribute lists; `algorithms` are the names of the supported
    /// hashing algorithms.
    ///
    /// The attributes are parsed and checked, the column type read from the field
    /// type, and the attributes applied, failing at the first of these that fails.
    pub fn from_field(
        identifier: Option<String>,
        itype: FieldType,
        attrs: Vec<AttributeGroup>,
        features: &DeriveFeatures,
        algorithms: &Vec<String>,
    ) -> (res: Result<ColumnDerive, DeriveError>)
        requires
            parse_path_ready(itype),
        ensures
            identifier is None ==> (res matches Err(e) && e.message@ == "Column must have an identifier"@),
            identifier matches Some(id) ==> match parse_items_spec(
                geekorm_items(attrs@),
                *features,
                crate::text::string_views(algorithms@),
            ) {
                Err(m) => (res matches Err(e) && e.message@ == m),
                Ok(parsed) => match parse_path_spec(itype, *features) {
                    Err(m) => (res matches Err(e) && e.message@ == m),
                    Ok(ct) => match apply_all_spec(fresh_view(ct), parsed, parsed) {
                        Ok(v) => (res matches Ok(c) && c@ == v && c.identifier == id && c.name == id && c.itype == itype
                            && c.attributes@ == parsed),
                        Err(m) => (res matches Err(e) && e.message@ == m),
                    },
                },
            },
    {
        let name = match identifier {
            Some(id) => id,
            None => {
                return Err(DeriveError { message: owned("Column must have an identifier") });
            },
        };
        let attributes = match GeekAttribute::parse_all(&attrs, features, algorithms) {
            Ok(a) => a,
            Err(e) => {
                return Err(e);
            },
        };
        let (coltype, options) = match parse_path(&itype, features) {
            Ok(p) => p,
            Err(e) => {
                return Err(e);
            },
        };
        let mut col = ColumnDerive {
            identifier: name.clone(),
            itype,
            attributes,
            name,
            alias: String::new(),
            coltype,
            options,
            foreign_key: None,
            skip: false,
            update: None,
            save: None,
            mode: None,
        };
        assert(col@ =~= fresh_view((coltype, options)));
        match col.apply_attributes() {
            Ok(_) => Ok(col),
            Err(e) => Err(e),
        }
    }
}

impl Default for ColumnDerive {
    /// A text column with an empty name, for a field `column` of type `String`.
    fn default() -> (res: Self)
        ensures
            res.identifier@ == "column"@,
            res.itype matches FieldType::Path { name, argument } && name@ == "String"@ && argument is Absent,
            res.attributes@.len() == 0,
            res.name@ == Seq::<char>::empty(),
            res@ == fresh_view((ColumnTypeDerive::Text, default_options())),
    {
        let c = ColumnDerive {
            identifier: owned("column"),
            itype: FieldType::Path { name: owned("String"), argument: GenericArg::Absent },
            attributes: Vec::new(),
            name: String::new(),
            alias: String::new(),
            coltype: ColumnTypeDerive::Text,
            options: ColumnOptionsDerive::default(),
            foreign_key: None,
            skip: false,
            update: None,
            save: None,
            mode: None,
        };
        assert(c@ =~= fresh_view((ColumnTypeDerive::Text, default_options())));
        c
    }
}

/// The columns of a derived table.
#[derive(Debug)]
pub struct ColumnsDerive {
    /// The columns, in field order
    pub columns: Vec<ColumnDerive>,
}

/// The predicate "is the primary key".
pub open spec fn primary_key_pred() -> spec_fn(ColumnDerive) -> bool {
    |c: ColumnDerive| is_primary_key_spec(c@)
}

impl ColumnsDerive {
    /// The first primary key column.
    pub fn get_primary_key(&self) -> (res: Option<&ColumnDerive>)
        ensures
            match first_index(self.columns@, primary_key_pred()) {
                Some(i) => res == Some(&self.columns@[i]),
                None => res is None,
            },
    {
        let mut i: usize = 0;
        while i < self.columns.len()
            invariant
                i <= self.columns.len(),
                forall|j: int| 0 <= j < i ==> !primary_key_pred()(#[trigger] self.columns@[j]),
            decreases self.columns.len() - i,
        {
            if self.columns[i].is_primary_key() {
                proof { lemma_first_index(self.columns@, primary_key_pred(), i as int); }
                return Some(&self.columns[i]);
            }
            i += 1;
        }
        proof { lemma_first_index(self.columns@, primary_key_pred(), i as int); }
        None
    }

    /// The foreign key columns, in order.
    pub fn get_foreign_keys(&self) -> (res: Vec<&ColumnDerive>)
        ensures
            res@.map_values(|c: &ColumnDerive| *c) == self.columns@.filter(|c: ColumnDerive| c.coltype is ForeignKey),
    {
        let ghost cols = self.columns@;
        let mut res: Vec<&ColumnDerive> = Vec::new();
        let mut i: usize = 0;
        while i < self.columns.len()
            invariant
                i <= self.columns.len(),
                cols == self.columns@,
                res@.map_values(|c: &ColumnDerive| *c) == cols.take(i as int).filter(|c: ColumnDerive| c.coltype is ForeignKey),
            decreases self.columns.len() - i,
        {
            proof {
                reveal_with_fuel(Seq::filter, 1);
                assert(cols.take((i + 1) as int).drop_last() =~= cols.take(i as int));
            }
            if self.columns[i].is_foreign_key() {
                res.push(&self.columns[i]);
            }
            i += 1;
            assert(res@.map_values(|c: &ColumnDerive| *c) =~= cols.take(i as int).filter(|c: ColumnDerive| c.coltype is ForeignKey));
        }
        assert(cols.take(cols.len() as int) =~= cols);
        res
    }

    /// The columns whose values are hashed, in order.
    pub fn get_hash_columns(&self) -> (res: Vec<&ColumnDerive>)
        ensures
            res@.map_values(|c: &ColumnDerive| *c) == self.columns@.filter(|c: ColumnDerive| c.mode matches Some(ColumnMode::Hash)),
    {
        let ghost cols = self.columns@;
        let mut res: Vec<&ColumnDerive> = Vec::new();
        let mut i: usize = 0;
        while i < self.columns.len()
            invariant
                i <= self.columns.len(),
                cols == self.columns@,
                res@.map_values(|c: &ColumnDerive| *c) == cols.take(i as int).filter(|c: ColumnDerive| c.mode matches Some(ColumnMode::Hash)),
            decreases self.columns.len() - i,
        {
            proof {
                reveal_with_fuel(Seq::filter, 1);
                assert(cols.take((i + 1) as int).drop_last() =~= cols.take(i as int));
            }
            let is_hash = match &self.columns[i].mode {
                Some(ColumnMode::Hash) => true,
                _ => false,
            };
            if is_hash {
                res.push(&self.columns[i]);
            }
            i += 1;
            assert(res@.map_values(|c: &ColumnDerive| *c) =~= cols.take(i as int).filter(|c: ColumnDerive| c.mode matches Some(ColumnMode::Hash)));
        }
        assert(cols.take(cols.len() as int) =~= cols);
        res
    }

    /// The columns whose values are random, in order.
    pub fn get_random_columns(&self) -> (res: Vec<&ColumnDerive>)
        ensures
            res@.map_values(|c: &ColumnDerive| *c) == self.columns@.filter(|c: ColumnDerive| c.mode matches Some(ColumnMode::Rand { .. })),
    {
        let ghost cols = self.columns@;
        let mut res: Vec<&ColumnDerive> = Vec::new();
        let mut i: usize = 0;
        while i < self.columns.len()
            invariant
                i <= self.columns.len(),
                cols == self.columns@,
                res@.map_values(|c: &ColumnDerive| *c) == cols.take(i as int).filter(|c: ColumnDerive| c.mode matches Some(ColumnMode::Rand { .. })),
            decreases self.columns.len() - i,
        {
            proof {
                reveal_with_fuel(Seq::filter, 1);
                assert(cols.take((i + 1) as int).drop_last() =~= cols.take(i as int));
            }
            let is_rand = match &self.columns[i].mode {
                Some(ColumnMode::Rand { .. }) => true,
                _ => false,
            };
            if is_rand {
                res.push(&self.columns[i]);
            }
            i += 1;
            assert(res@.map_values(|c: &ColumnDerive| *c) =~= cols.take(i as int).filter(|c: ColumnDerive| c.mode matches Some(ColumnMode::Rand { .. })));
        }
        assert(cols.take(cols.len() as int) =~= cols);
        res
    }

    /// The generated constructor's arguments, one for each column that takes one,
    /// in order.
    pub fn params(&self) -> (res: Vec<FieldParam>)
        requires
            forall|i: int| 0 <= i < self.columns@.len() ==> params_ready(#[trigger] self.columns@[i]),
        ensures
            res@ == self.columns@.map_values(|c: ColumnDerive| param_spec(c)).filter(|p: Option<FieldParam>| p is Some).map_values(
                |p: Option<FieldParam>| p.unwrap(),
            ),
    {
        let ghost all = self.columns@.map_values(|c: ColumnDerive| param_spec(c));
        let mut res: Vec<FieldParam> = Vec::new();
        let mut i: usize = 0;
        while i < self.columns.len()
            invariant
                i <= self.columns.len(),
                all == self.columns@.map_values(|c: ColumnDerive| param_spec(c)),
                forall|k: int| 0 <= k < self.columns@.len() ==> params_ready(#[trigger] self.columns@[k]),
                res@ == all.take(i as int).filter(|p: Option<FieldParam>| p is Some).map_values(|p: Option<FieldParam>| p.unwrap()),
            decreases self.columns.len() - i,
        {
            proof {
                reveal_with_fuel(Seq::filter, 1);
                assert(all.take(i + 1).drop_last() =~= all.take(i as int));
            }
            match self.columns[i].param() {
                Some(p) => res.push(p),
                None => {},
            }
            i += 1;
            assert(res@ =~= all.take(i as int).filter(|p: Option<FieldParam>| p is Some).map_values(|p: Option<FieldParam>| p.unwrap()));
        }
        assert(all.take(all.len() as int) =~= all);
        res
    }

    /// What the generated constructor writes for each column, in order.
    pub fn initializers(&self) -> (res: Vec<FieldInit>)
        ensures
            res@.len() == self.columns@.len(),
            forall|i: int| 0 <= i < res@.len() ==> (#[trigger] res@[i])@ == initializer_spec(self.columns@[i]),
    {
        let mut res: Vec<FieldInit> = Vec::new();
        let mut i: usize = 0;
        while i < self.columns.len()
            invariant
                i <= self.columns.len(),
                res@.len() == i,
                forall|j: int| 0 <= j < i ==> (#[trigger] res@[j])@ == initializer_spec(self.columns@[j]),
            decreases self.columns.len() - i,
        {
            res.push(self.columns[i].initializer());
            i += 1;
        }
        res
    }
}

} // verus!
