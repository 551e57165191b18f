//! The column type and options a derived table gives a field, read from the
//! field's Rust type.
use vstd::prelude::*;
use crate::builder::columntypes::{ColumnOptions, ColumnType};
use crate::text::{owned, str_eq};
use super::{DeriveError, DeriveFeatures};

verus! {

/// The column type of a derived field.
#[derive(Debug, Clone, Copy, PartialEq, Eq, Structural)]
pub enum ColumnTypeDerive {
    /// Text column
    Text,
    /// Integer column
    Integer,
    /// Boolean column
    Boolean,
    /// Blob column
    Blob,
    /// Foreign key column
    ForeignKey,
}

/// The column options of a derived field.
#[derive(Debug, Clone, Copy, PartialEq, Eq, Structural)]
pub struct ColumnOptionsDerive {
    /// Column is the primary key
    pub primary_key: bool,
    /// Column is unique
    pub unique: bool,
    /// Column is not null
    pub not_null: bool,
    /// Column is auto increment
    pub auto_increment: bool,
}

/// The options of a field without attributes: only `NOT NULL`.
pub open spec fn default_options() -> ColumnOptionsDerive {
    ColumnOptionsDerive { primary_key: false, unique: false, not_null: true, auto_increment: false }
}

/// The options of a primary key, auto incrementing or not.
pub open spec fn key_options(auto_increment: bool) -> ColumnOptionsDerive {
    ColumnOptionsDerive { primary_key: true, unique: false, not_null: false, auto_increment }
}

impl ColumnOptionsDerive {
    /// Set Unique
    pub fn set_unique(&mut self, unique: bool)
        ensures
            *final(self) == (ColumnOptionsDerive { unique, ..*old(self) }),
    {
        self.unique = unique;
    }

    /// Set Not Null
    pub fn set_notnull(&mut self, notnull: bool)
        ensures
            *final(self) == (ColumnOptionsDerive { not_null: notnull, ..*old(self) }),
    {
        self.not_null = notnull;
    }

    /// Set Auto Increment
    pub fn set_auto_increment(&mut self, auto_increment: bool)
        ensures
            *final(self) == (ColumnOptionsDerive { auto_increment, ..*old(self) }),
    {
        self.auto_increment = auto_increment;
    }

    /// The same options as the query builder's column options.
    pub fn to_column_options(&self) -> (res: ColumnOptions)
        ensures
            res == (ColumnOptions {
                primary_key: self.primary_key,
                unique: self.unique,
                not_null: self.not_null,
                auto_increment: self.auto_increment,
            }),
    {
        ColumnOptions {
            primary_key: self.primary_key,
            unique: self.unique,
            not_null: self.not_null,
            auto_increment: self.auto_increment,
        }
    }
}

impl Default for ColumnOptionsDerive {
    fn default() -> (res: Self)
        ensures
            res == default_options(),
    {
        ColumnOptionsDerive { primary_key: false, unique: false, not_null: true, auto_increment: false }
    }
}

/// The query builder's column type for a derived column type.
pub open spec fn column_type_of(t: ColumnTypeDerive) -> ColumnType {
    match t {
        ColumnTypeDerive::Text => ColumnType::Text,
        ColumnTypeDerive::Integer => ColumnType::Integer,
        ColumnTypeDerive::Boolean => ColumnType::Boolean,
        ColumnTypeDerive::Blob => ColumnType::Blob,
        ColumnTypeDerive::ForeignKey => ColumnType::ForeignKey,
    }
}

impl ColumnTypeDerive {
    /// The query builder's column type of the same name.
    pub fn to_column_type(&self) -> (res: ColumnType)
        ensures
            res == column_type_of(*self),
    {
        match self {
            ColumnTypeDerive::Text => ColumnType::Text,
            ColumnTypeDerive::Integer => ColumnType::Integer,
            ColumnTypeDerive::Boolean => ColumnType::Boolean,
            ColumnTypeDerive::Blob => ColumnType::Blob,
            ColumnTypeDerive::ForeignKey => ColumnType::ForeignKey,
        }
    }
}

/// The Rust type of a field, as far as the column type depends on it.
#[derive(Debug, PartialEq, Eq)]
pub enum FieldType {
    /// A slice type, `[T]`
    Slice,
    /// A path type: the name of its first segment, and that segment's first
    /// generic argument
    Path {
        /// Name of the first segment
        name: String,
        /// First generic argument of the first segment
        argument: GenericArg,
    },
    /// Any other kind of type
    Other,
}

/// The first generic argument of a path segment.
#[derive(Debug, PartialEq, Eq)]
pub enum GenericArg {
    /// The segment has no angle brackets
    Absent,
    /// The segment has empty angle brackets
    Empty,
    /// The first argument is a type
    Type(Box<FieldType>),
    /// The first argument is something else (a lifetime, a constant)
    NotType,
}

/// The column type and options of a plain (non-wrapper) type name: `None` for the
/// names that need their generic argument.
pub open spec fn named_column(name: Seq<char>, features: DeriveFeatures) -> (ColumnTypeDerive, ColumnOptionsDerive) {
    if name == "PrimaryKeyString"@ || name == "PrimaryKeyUuid"@ {
        (ColumnTypeDerive::Text, key_options(false))
    } else if name == "PrimaryKeyInteger"@ {
        (ColumnTypeDerive::Integer, key_options(true))
    } else if name == "ForeignKey"@ {
        (ColumnTypeDerive::ForeignKey, ColumnOptionsDerive {
            primary_key: false,
            unique: false,
            not_null: true,
            auto_increment: false,
        })
    } else if name == "String"@ {
        (ColumnTypeDerive::Text, default_options())
    } else if name == "i32"@ || name == "i64"@ || name == "u32"@ || name == "u64"@ {
        (ColumnTypeDerive::Integer, default_options())
    } else if name == "bool"@ {
        (ColumnTypeDerive::Boolean, default_options())
    } else if features.uuid && name == "Uuid"@ {
        (ColumnTypeDerive::Text, default_options())
    } else if features.chrono && (name == "chrono"@ || name == "DateTime"@) {
        (ColumnTypeDerive::Text, default_options())
    } else {
        (ColumnTypeDerive::Blob, default_options())
    }
}

/// A field type that reading its column type can handle: a `PrimaryKey` wraps a
/// path type, an `Option` has no empty brackets and wraps such a type.
pub open spec fn parse_path_ready(t: FieldType) -> bool
    decreases t,
{
    match t {
        FieldType::Path { name, argument } => if name@ == "PrimaryKey"@ {
            match argument {
                GenericArg::Absent => true,
                GenericArg::Type(inner) => *inner is Path,
                _ => false,
            }
        } else if name@ == "Option"@ {
            match argument {
                GenericArg::Empty => false,
                GenericArg::Type(inner) => parse_path_ready(*inner),
                _ => true,
            }
        } else {
            true
        },
        _ => true,
    }
}

/// The column type and options of a field type, or the reason it has none.
///
/// A slice is text; `PrimaryKey<Integer>` an auto incrementing integer key and any
/// other `PrimaryKey<T>` a text key; `Option<T>` is `T` made nullable; other
/// names as [`named_column`] says. Types that are neither paths nor slices are
/// refused.
pub open spec fn parse_path_spec(t: FieldType, features: DeriveFeatures) -> Result<(ColumnTypeDerive, ColumnOptionsDerive), Seq<char>>
    decreases t,
{
    match t {
        FieldType::Slice => Ok((ColumnTypeDerive::Text, default_options())),
        FieldType::Path { name, argument } => if name@ == "PrimaryKey"@ {
            match argument {
                GenericArg::Type(inner) => match *inner {
                    FieldType::Path { name: inner_name, .. } => {
                        let is_int = inner_name@ == "Integer"@;
                        Ok((if is_int { ColumnTypeDerive::Integer } else { ColumnTypeDerive::Text }, key_options(is_int)))
                    },
                    _ => Err(Seq::empty()),
                },
                _ => Err("Unsupported PrimaryKey type"@),
            }
        } else if name@ == "Option"@ {
            match argument {
                GenericArg::Type(inner) => match parse_path_spec(*inner, features) {
                    Ok((ct, o)) => Ok((ct, ColumnOptionsDerive { not_null: false, ..o })),
                    Err(e) => Err(e),
                },
                _ => Err("Unsupported Option type"@),
            }
        } else {
            Ok(named_column(name@, features))
        },
        FieldType::Other => Err("Unsupported column type"@),
    }
}

/// An `Option<T>` field has the column type of `T`, is nullable, and keeps the
/// other options of `T`; it is refused exactly when `T` is.
pub proof fn lemma_option_is_nullable(t: FieldType, features: DeriveFeatures)
    ensures
        match t {
            FieldType::Path { name, argument: GenericArg::Type(inner) } => name@ == "Option"@ ==> match parse_path_spec(
                *inner,
                features,
            ) {
                Ok((ct, o)) => parse_path_spec(t, features) == Ok::<(ColumnTypeDerive, ColumnOptionsDerive), Seq<char>>(
                    (ct, ColumnOptionsDerive { not_null: false, ..o }),
                ),
                Err(m) => parse_path_spec(t, features) == Err::<(ColumnTypeDerive, ColumnOptionsDerive), Seq<char>>(m),
            },
            _ => true,
        },
{
    reveal_strlit("Option");
    reveal_strlit("PrimaryKey");
    match t {
        FieldType::Path { name, argument } => {
            if name@ == "Option"@ {
                assert(name@ != "PrimaryKey"@) by {
                    assert(name@.len() != "PrimaryKey"@.len());
                }
            }
        },
        _ => {},
    }
}

fn named_column_exec(name: &str, features: &DeriveFeatures) -> (res: (ColumnTypeDerive, ColumnOptionsDerive))
    ensures
        res == named_column(name@, *features),
{
    let d = ColumnOptionsDerive::default();
    if str_eq(name, "PrimaryKeyString") || str_eq(name, "PrimaryKeyUuid") {
        (ColumnTypeDerive::Text, ColumnOptionsDerive { primary_key: true, unique: false, not_null: false, auto_increment: false })
    } else if str_eq(name, "PrimaryKeyInteger") {
        (ColumnTypeDerive::Integer, ColumnOptionsDerive { primary_key: true, unique: false, not_null: false, auto_increment: true })
    } else if str_eq(name, "ForeignKey") {
        (ColumnTypeDerive::ForeignKey, ColumnOptionsDerive { primary_key: false, unique: false, not_null: true, auto_increment: false })
    } else if str_eq(name, "String") {
        (ColumnTypeDerive::Text, d)
    } else if str_eq(name, "i32") || str_eq(name, "i64") || str_eq(name, "u32") || str_eq(name, "u64") {
        (ColumnTypeDerive::Integer, d)
    } else if str_eq(name, "bool") {
        (ColumnTypeDerive::Boolean, d)
    } else if features.uuid && str_eq(name, "Uuid") {
        (ColumnTypeDerive::Text, d)
    } else if features.chrono && (str_eq(name, "chrono") || str_eq(name, "DateTime")) {
        (ColumnTypeDerive::Text, d)
    } else {
        (ColumnTypeDerive::Blob, d)
    }
}

/// The column type and options of a field's type.
pub fn parse_path(typ: &FieldType, features: &DeriveFeatures) -> (res: Result<(ColumnTypeDerive, ColumnOptionsDerive), DeriveError>)
    requires
        parse_path_ready(*typ),
    ensures
        match parse_path_spec(*typ, *features) {
            Ok(p) => res == Ok::<(ColumnTypeDerive, ColumnOptionsDerive), DeriveError>(p),
            Err(m) => (res matches Err(e) && e.message@ == m),
        },
    decreases typ,
{
    match typ {
        FieldType::Slice => Ok((ColumnTypeDerive::Text, ColumnOptionsDerive::default())),
        FieldType::Path { name, argument } => {
            if str_eq(name.as_str(), "PrimaryKey") {
                match argument {
                    GenericArg::Type(inner) => match &**inner {
                        FieldType::Path { name: inner_name, .. } => {
                            let is_int = str_eq(inner_name.as_str(), "Integer");
                            let ctype = if is_int { ColumnTypeDerive::Integer } else { ColumnTypeDerive::Text };
                            Ok((ctype, ColumnOptionsDerive {
                                primary_key: true,
                                unique: false,
                                not_null: false,
                                auto_increment: is_int,
                            }))
                        },
                        _ => Err(DeriveError { message: String::new() }),
                    },
                    _ => Err(DeriveError { message: owned("Unsupported PrimaryKey type") }),
                }
            } else if str_eq(name.as_str(), "Option") {
                match argument {
                    GenericArg::Type(inner) => {
                        match parse_path(&**inner, features) {
                            Ok((ct, o)) => {
                                let mut o = o;
                                o.set_notnull(false);
                                Ok((ct, o))
                            },
                            Err(e) => Err(e),
                        }
                    },
                    _ => Err(DeriveError { message: owned("Unsupported Option type") }),
                }
            } else {
                Ok(named_column_exec(name.as_str(), features))
            }
        },
        FieldType::Other => Err(DeriveError { message: owned("Unsupported column type") }),
    }
}

} // verus!
