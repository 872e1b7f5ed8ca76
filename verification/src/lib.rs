//! A type-driven row-to-record mapping layer for tabular SQL query results.
//!
//! A query result is an ordered sequence of rows, each an ordered sequence of
//! named, dynamically typed cells.  This crate turns one row into one
//! strongly typed record through the [`FromRow`] contract, resolves the
//! source column name of every record field (explicit override, naming
//! convention, or the field name verbatim), and assembles whole result sets
//! into typed containers (a list, an optional first record, or an execution
//! acknowledgement).

use vstd::prelude::*;

pub mod fetch;
pub mod mappings;
pub mod query;
pub mod records;
pub mod row;
pub mod shape;

use row::{MapError, Row, SpecMapError};

verus! {

/// The mapping contract: the single capability "build one instance of the
/// target type from one row".
///
/// Every mappable type gives a mathematical description of the conversion
/// (`spec_from_row`) and an executable conversion (`from_row`) that is proved
/// to agree with it.  A conversion either yields a whole record or fails with
/// a [`MapError`]; no partial record is ever produced.
pub trait FromRow: Sized {
    /// What `from_row` returns on a given row, as a mathematical function.
    spec fn spec_from_row(row: Row) -> Result<Self, SpecMapError>;

    /// Build one instance of the target type from one row.
    fn from_row(row: Row) -> (r: Result<Self, MapError>)
        ensures
            row::result_matches(r, Self::spec_from_row(row)),
    ;
}

/// The text-ownership helper: turn a possibly absent borrowed string into a
/// possibly absent owned one, so that a mapped record never borrows from the
/// row it came from.
pub fn string(str: Option<&str>) -> (r: Option<String>)
    ensures
        r is Some <==> str is Some,
        r matches Some(o) ==> str matches Some(s) && o@ == s@,
{
    if let Some(s) = str {
        Some(s.to_owned())
    } else {
        None
    }
}

} // verus!
