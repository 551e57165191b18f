//! Errors of the SQL builder.
use vstd::prelude::*;
use crate::text::{owned, push_str};

verus! {

/// This is the Error for the GeekORM SQL module
#[derive(Debug, Clone, PartialEq)]
pub enum Error {
    /// Failed to build the SQL query
    QueryBuilderError {
        /// The error message
        error: String,
        /// Location
        location: String,
    },
    /// Failed to load SQL file
    SqlFileNotFound {
        /// Path to the SQL file
        path: String,
    },
    /// A value could not be converted to the requested type
    TryFromValueError {
        /// Description of the conversion that failed
        field: String,
    },
}

/// The human readable message of an error.
pub open spec fn error_message(e: Error) -> Seq<char> {
    match e {
        Error::QueryBuilderError { error, location } =>
            "Failed to build SQL query: "@ + error@ + " ("@ + location@ + ")"@,
        Error::SqlFileNotFound { path } => "SQL File not Found: "@ + path@,
        Error::TryFromValueError { field } => "Failed to convert value: "@ + field@,
    }
}

impl Error {
    /// Builds a query builder error from its message and location.
    pub fn query_builder(error: &str, location: &str) -> (res: Error)
        ensures
            res matches Error::QueryBuilderError { error: e, location: l } && e@ == error@
                && l@ == location@,
    {
        Error::QueryBuilderError { error: owned(error), location: owned(location) }
    }

    /// The human readable message of the error.
    pub fn message(&self) -> (res: String)
        ensures
            res@ == error_message(*self),
    {
        match self {
            Error::QueryBuilderError { error, location } => {
                let mut s = owned("Failed to build SQL query: ");
                push_str(&mut s, error.as_str());
                push_str(&mut s, " (");
                push_str(&mut s, location.as_str());
                push_str(&mut s, ")");
                s
            },
            Error::SqlFileNotFound { path } => {
                let mut s = owned("SQL File not Found: ");
                push_str(&mut s, path.as_str());
                s
            },
            Error::TryFromValueError { field } => {
                let mut s = owned("Failed to convert value: ");
                push_str(&mut s, field.as_str());
                s
            },
        }
    }
}

} // verus!
