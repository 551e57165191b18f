//! Column types and column options, and their SQL for each backend.
use vstd::prelude::*;
use crate::backends::QueryBackend;
use crate::error::Error;
use crate::text::{join, join_seqs, owned, push_str, string_views};
use super::QueryBuilder;

verus! {

/// Column types
#[derive(Debug, Clone, Copy, PartialEq, Eq, Structural)]
pub enum ColumnType {
    /// Text column type
    Text,
    /// Integer / Numeric column type (32-bit)
    Integer,
    /// Big Integer / Numeric column type (64-bit)
    BigInt,
    /// Boolean column type
    Boolean,
    /// Blob / Byte Array column type
    Blob,
    /// Foreign key column type
    ForeignKey,
}

impl Default for ColumnType {
    fn default() -> (res: Self)
        ensures
            res == ColumnType::Text,
    {
        ColumnType::Text
    }
}

/// Options for a column, such as primary key, unique, not null, and auto increment.
#[derive(Debug, Clone, Copy, PartialEq, Eq, Structural)]
pub struct ColumnOptions {
    /// If the column is a primary key
    pub primary_key: bool,
    /// If the column is unique
    pub unique: bool,
    /// If the column is not null
    pub not_null: bool,
    /// If the column is auto incrementing
    pub auto_increment: bool,
}

impl Default for ColumnOptions {
    fn default() -> (res: Self)
        ensures
            res == (ColumnOptions {
                primary_key: false,
                unique: false,
                not_null: false,
                auto_increment: false,
            }),
    {
        ColumnOptions { primary_key: false, unique: false, not_null: false, auto_increment: false }
    }
}

/// Whether the backend writes PostgreSQL syntax (SQLite syntax otherwise).
pub open spec fn is_postgres(backend: QueryBackend) -> bool {
    backend is Postgres
}

/// The `NOT NULL` and `UNIQUE` words of non-key options, in that order.
pub open spec fn constraint_words(o: ColumnOptions) -> Seq<Seq<char>> {
    (if o.not_null { seq!["NOT NULL"@] } else { Seq::empty() }) + (if o.unique {
        seq!["UNIQUE"@]
    } else {
        Seq::empty()
    })
}

/// The words describing the options of a column for a backend.
///
/// A primary key is `PRIMARY KEY` (with `AUTOINCREMENT` on SQLite when it auto
/// increments; on PostgreSQL an auto incrementing key gets no words, its `SERIAL`
/// type carries them); any other column lists `NOT NULL` and `UNIQUE`.
pub open spec fn option_words(o: ColumnOptions, backend: QueryBackend) -> Seq<Seq<char>> {
    if o.primary_key {
        if is_postgres(backend) {
            if o.auto_increment { Seq::empty() } else { seq!["PRIMARY KEY"@] }
        } else {
            if o.auto_increment {
                seq!["PRIMARY KEY"@, "AUTOINCREMENT"@]
            } else {
                seq!["PRIMARY KEY"@]
            }
        }
    } else {
        constraint_words(o)
    }
}

/// The options of a column as SQL: its words separated by single spaces.
pub open spec fn options_sql(o: ColumnOptions, backend: QueryBackend) -> Seq<char> {
    join_seqs(option_words(o, backend), " "@)
}

/// `base`, followed by a space and the options when there are any.
pub open spec fn with_options(base: Seq<char>, o: ColumnOptions, backend: QueryBackend) -> Seq<char> {
    if options_sql(o, backend).len() == 0 {
        base
    } else {
        base + " "@ + options_sql(o, backend)
    }
}

/// The SQL type declaration of a column with its options.
///
/// SQLite stores integers, big integers, booleans and foreign keys as `INTEGER`,
/// text as `TEXT` and blobs as `BLOB`. PostgreSQL uses `INTEGER`, `BIGINT`,
/// `BOOLEAN`, `TEXT` and `BYTEA`, and an auto incrementing primary key becomes
/// `SERIAL PRIMARY KEY` (`BIGSERIAL PRIMARY KEY` for a big integer, plain `SERIAL`
/// for a foreign key).
pub open spec fn type_sql(t: ColumnType, o: ColumnOptions, backend: QueryBackend) -> Seq<char> {
    let serial = o.primary_key && o.auto_increment;
    if is_postgres(backend) {
        match t {
            ColumnType::ForeignKey => if serial {
                "SERIAL"@
            } else {
                with_options("INTEGER"@, o, backend)
            },
            ColumnType::Text => with_options("TEXT"@, o, backend),
            ColumnType::Integer => if serial {
                "SERIAL PRIMARY KEY"@
            } else {
                with_options("INTEGER"@, o, backend)
            },
            ColumnType::BigInt => if serial {
                "BIGSERIAL PRIMARY KEY"@
            } else {
                with_options("BIGINT"@, o, backend)
            },
            ColumnType::Boolean => with_options("BOOLEAN"@, o, backend),
            ColumnType::Blob => with_options("BYTEA"@, o, backend),
        }
    } else {
        match t {
            ColumnType::Text => with_options("TEXT"@, o, backend),
            ColumnType::Blob => with_options("BLOB"@, o, backend),
            _ => with_options("INTEGER"@, o, backend),
        }
    }
}

fn backend_is_postgres(backend: QueryBackend) -> (res: bool)
    ensures
        res == is_postgres(backend),
{
    match backend {
        QueryBackend::Postgres => true,
        _ => false,
    }
}

impl ColumnOptions {
    /// Primary key options
    pub fn primary_key() -> (res: Self)
        ensures
            res == (ColumnOptions {
                primary_key: true,
                unique: true,
                not_null: true,
                auto_increment: true,
            }),
    {
        ColumnOptions { primary_key: true, unique: true, not_null: true, auto_increment: true }
    }

    /// Unique (not null)
    pub fn unique() -> (res: Self)
        ensures
            res == (ColumnOptions {
                primary_key: false,
                unique: true,
                not_null: true,
                auto_increment: false,
            }),
    {
        ColumnOptions { primary_key: false, unique: true, not_null: true, auto_increment: false }
    }

    /// The options as SQL for a backend.
    pub fn options_to_sql(&self, backend: QueryBackend) -> (res: String)
        ensures
            res@ == options_sql(*self, backend),
    {
        let mut words: Vec<String> = Vec::new();
        if self.primary_key {
            if backend_is_postgres(backend) {
                if !self.auto_increment {
                    words.push(owned("PRIMARY KEY"));
                }
            } else {
                words.push(owned("PRIMARY KEY"));
                if self.auto_increment {
                    words.push(owned("AUTOINCREMENT"));
                }
            }
        } else {
            if self.not_null {
                words.push(owned("NOT NULL"));
            }
            if self.unique {
                words.push(owned("UNIQUE"));
            }
        }
        assert(string_views(words@) =~= option_words(*self, backend));
        join(&words, " ")
    }

    /// The options as SQL, using SQLite syntax.
    pub fn sql(&self) -> (res: String)
        ensures
            res@ == options_sql(*self, QueryBackend::Unknown),
    {
        self.options_to_sql(QueryBackend::Unknown)
    }

    /// The options as SQL for the backend of a query.
    pub fn to_sql(&self, query: &QueryBuilder) -> (res: Result<String, Error>)
        ensures
            res matches Ok(s) && s@ == options_sql(*self, query.backend),
    {
        Ok(self.options_to_sql(query.backend))
    }
}

/// Appends the options, preceded by a space, when there are any.
fn push_options(stream: &mut String, o: &ColumnOptions, backend: QueryBackend)
    ensures
        final(stream)@ == with_options(old(stream)@, *o, backend),
{
    let opts = o.options_to_sql(backend);
    if opts.as_str().unicode_len() != 0 {
        push_str(stream, " ");
        push_str(stream, opts.as_str());
    }
}

impl ColumnType {
    /// Convert the column type to SQL string with options
    pub fn to_sql_with_options(&self, options: &ColumnOptions, query: &QueryBuilder) -> (res: Result<
        String,
        Error,
    >)
        ensures
            res matches Ok(s) && s@ == type_sql(*self, *options, query.backend),
    {
        Ok(self.type_to_sql(options, query.backend))
    }

    /// The SQL type declaration with options for a backend.
    pub fn type_to_sql(&self, options: &ColumnOptions, backend: QueryBackend) -> (res: String)
        ensures
            res@ == type_sql(*self, *options, backend),
    {
        let serial = options.primary_key && options.auto_increment;
        if backend_is_postgres(backend) {
            match self {
                ColumnType::ForeignKey => {
                    if serial {
                        owned("SERIAL")
                    } else {
                        let mut s = owned("INTEGER");
                        push_options(&mut s, options, backend);
                        s
                    }
                },
                ColumnType::Text => {
                    let mut s = owned("TEXT");
                    push_options(&mut s, options, backend);
                    s
                },
                ColumnType::Integer => {
                    if serial {
                        owned("SERIAL PRIMARY KEY")
                    } else {
                        let mut s = owned("INTEGER");
                        push_options(&mut s, options, backend);
                        s
                    }
                },
                ColumnType::BigInt => {
                    if serial {
                        owned("BIGSERIAL PRIMARY KEY")
                    } else {
                        let mut s = owned("BIGINT");
                        push_options(&mut s, options, backend);
                        s
                    }
                },
                ColumnType::Boolean => {
                    let mut s = owned("BOOLEAN");
                    push_options(&mut s, options, backend);
                    s
                },
                ColumnType::Blob => {
                    let mut s = owned("BYTEA");
                    push_options(&mut s, options, backend);
                    s
                },
            }
        } else {
            let mut s = match self {
                ColumnType::Text => owned("TEXT"),
                ColumnType::Blob => owned("BLOB"),
                _ => owned("INTEGER"),
            };
            push_options(&mut s, options, backend);
            s
        }
    }
}

} // verus!
