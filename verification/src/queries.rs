//! Collections of statements loaded together.
use vstd::prelude::*;
use crate::sql::SqlQuery;

verus! {

/// A collection of queries to be executed in a batch
#[derive(Debug)]
pub struct Queries {
    /// The statements
    pub queries: Vec<SqlQuery>,
}

} // verus!
