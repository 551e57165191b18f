//! Column types of built queries, written in SQLite syntax.
use vstd::prelude::*;
use crate::backends::QueryBackend;
use crate::builder::columntypes::with_options;
use crate::error::Error;
use crate::text::{owned, push_str};
use super::Query;
use super::columns::{ColumnOptions, builder_options};

verus! {

/// Column types
#[derive(Debug, Clone, Copy, PartialEq, Eq, Structural)]
pub enum ColumnType {
    /// Text column type
    Text,
    /// Integer / Numeric column type
    Integer,
    /// Boolean column type
    Boolean,
    /// Blob / Byte Array column type
    Blob,
    /// Foreign key column type
    ForeignKey,
}

impl Default for ColumnType {
    fn default() -> (res: Self)
        ensures
            res == ColumnType::Text,
    {
        ColumnType::Text
    }
}

/// The SQL type a column type is stored as: `TEXT` for text, `BLOB` for blobs and
/// `INTEGER` for the others.
pub open spec fn storage_type(t: ColumnType) -> Seq<char> {
    match t {
        ColumnType::Text => "TEXT"@,
        ColumnType::Blob => "BLOB"@,
        _ => "INTEGER"@,
    }
}

/// The type declaration of a column: its storage type, followed by a space and the
/// options when there are any.
pub open spec fn column_type_sql(t: ColumnType, o: ColumnOptions) -> Seq<char> {
    with_options(storage_type(t), builder_options(o), QueryBackend::Unknown)
}

impl ColumnType {
    /// Convert the column type to SQL string with options
    pub fn to_sql_with_options(&self, options: &ColumnOptions, _query: &Query) -> (res: Result<
        String,
        Error,
    >)
        ensures
            res matches Ok(s) && s@ == column_type_sql(*self, *options),
    {
        let mut stream = match self {
            ColumnType::Text => owned("TEXT"),
            ColumnType::Blob => owned("BLOB"),
            _ => owned("INTEGER"),
        };
        let opts = options.sql();
        if opts.as_str().unicode_len() != 0 {
            push_str(&mut stream, " ");
            push_str(&mut stream, opts.as_str());
        }
        Ok(stream)
    }
}

} // verus!
