//! The shared cell-fetch helpers that a mapping implementation is assembled
//! from: fetch a required or an optional cell by its resolved column name,
//! narrow it to the declared scalar kind, and copy text into owned form.

use vstd::prelude::*;

use crate::row::{
    CellValue, ColumnRef, MapError, Row, ScalarKind, SpecColumnRef, SpecMapError, SqlF64,
};

verus! {

/// What fetching a required cell yields: the value when it is present with
/// the expected kind, a cell-absent error when it is absent, and a
/// type-narrowing error otherwise.
pub open spec fn spec_fetch_required(row: Row, col: Seq<char>, expected: ScalarKind) -> Result<
    CellValue,
    SpecMapError,
> {
    match row.spec_lookup(col) {
        None => Err(SpecMapError::CellAbsent { column: SpecColumnRef::Name(col) }),
        Some(c) => if c.spec_kind() == Some(expected) {
            Ok(c)
        } else {
            Err(SpecMapError::TypeMismatch { column: SpecColumnRef::Name(col), expected: expected })
        },
    }
}

/// What fetching an optional cell yields: absence is the "no value" state
/// and never an error; a present cell of the wrong kind still fails.
pub open spec fn spec_fetch_optional(row: Row, col: Seq<char>, expected: ScalarKind) -> Result<
    Option<CellValue>,
    SpecMapError,
> {
    match row.spec_lookup(col) {
        None => Ok(None),
        Some(c) => if c.spec_kind() == Some(expected) {
            Ok(Some(c))
        } else {
            Err(SpecMapError::TypeMismatch { column: SpecColumnRef::Name(col), expected: expected })
        },
    }
}

/// Fetch the cell of a required field by its resolved column name: an absent
/// cell fails the record, and so does one of the wrong kind.
pub fn fetch_required<'a>(row: &'a Row, column: &str, expected: ScalarKind) -> (r: Result<
    &'a CellValue,
    MapError,
>)
    ensures
        match r {
            Ok(c) => spec_fetch_required(*row, column@, expected) == Ok::<
                CellValue,
                SpecMapError,
            >(*c),
            Err(e) => spec_fetch_required(*row, column@, expected) matches Err(se) && e@ == se,
        },
{
    match row.get_by_name(column) {
        None => Err(MapError::CellAbsent { column: ColumnRef::Name(column.to_owned()) }),
        Some(c) => {
            let found = c.kind();
            let kind_ok = match found {
                Some(k) => k == expected,
                None => false,
            };
            if kind_ok {
                Ok(c)
            } else {
                Err(
                    MapError::TypeMismatch {
                        column: ColumnRef::Name(column.to_owned()),
                        expected: expected,
                    },
                )
            }
        },
    }
}

/// Fetch the cell of an optional field by its resolved column name: an
/// absent cell is the "no value" state, not a failure; a present cell of the
/// wrong kind still fails.
pub fn fetch_optional<'a>(row: &'a Row, column: &str, expected: ScalarKind) -> (r: Result<
    Option<&'a CellValue>,
    MapError,
>)
    ensures
        match r {
            Ok(None) => spec_fetch_optional(*row, column@, expected) == Ok::<
                Option<CellValue>,
                SpecMapError,
            >(None),
            Ok(Some(c)) => spec_fetch_optional(*row, column@, expected) == Ok::<
                Option<CellValue>,
                SpecMapError,
            >(Some(*c)),
            Err(e) => spec_fetch_optional(*row, column@, expected) matches Err(se) && e@ == se,
        },
{
    match row.get_by_name(column) {
        None => Ok(None),
        Some(c) => {
            let found = c.kind();
            let kind_ok = match found {
                Some(k) => k == expected,
                None => false,
            };
            if kind_ok {
                Ok(Some(c))
            } else {
                Err(
                    MapError::TypeMismatch {
                        column: ColumnRef::Name(column.to_owned()),
                        expected: expected,
                    },
                )
            }
        },
    }
}

/// What mapping a required 32-bit integer field yields.
pub open spec fn spec_required_i32(row: Row, col: Seq<char>) -> Result<i32, SpecMapError> {
    match row.spec_lookup(col) {
        None => Err(SpecMapError::CellAbsent { column: SpecColumnRef::Name(col) }),
        Some(CellValue::I32(v)) => Ok(v),
        Some(_) => Err(
            SpecMapError::TypeMismatch {
                column: SpecColumnRef::Name(col),
                expected: ScalarKind::I32,
            },
        ),
    }
}

/// What mapping an optional 32-bit integer field yields.
pub open spec fn spec_optional_i32(row: Row, col: Seq<char>) -> Result<Option<i32>, SpecMapError> {
    match row.spec_lookup(col) {
        None => Ok(None),
        Some(CellValue::I32(v)) => Ok(Some(v)),
        Some(_) => Err(
            SpecMapError::TypeMismatch {
                column: SpecColumnRef::Name(col),
                expected: ScalarKind::I32,
            },
        ),
    }
}

/// What mapping a required text field yields: the very string held by the
/// row, as an owned value.
pub open spec fn spec_required_text(row: Row, col: Seq<char>) -> Result<String, SpecMapError> {
    match row.spec_lookup(col) {
        None => Err(SpecMapError::CellAbsent { column: SpecColumnRef::Name(col) }),
        Some(CellValue::Text(s)) => Ok(s),
        Some(_) => Err(
            SpecMapError::TypeMismatch {
                column: SpecColumnRef::Name(col),
                expected: ScalarKind::Text,
            },
        ),
    }
}

/// What mapping an optional text field yields.
pub open spec fn spec_optional_text(row: Row, col: Seq<char>) -> Result<
    Option<String>,
    SpecMapError,
> {
    match row.spec_lookup(col) {
        None => Ok(None),
        Some(CellValue::Text(s)) => Ok(Some(s)),
        Some(_) => Err(
            SpecMapError::TypeMismatch {
                column: SpecColumnRef::Name(col),
                expected: ScalarKind::Text,
            },
        ),
    }
}

/// What mapping a required 64-bit floating point field yields.
pub open spec fn spec_required_f64(row: Row, col: Seq<char>) -> Result<SqlF64, SpecMapError> {
    match row.spec_lookup(col) {
        None => Err(SpecMapError::CellAbsent { column: SpecColumnRef::Name(col) }),
        Some(CellValue::F64(v)) => Ok(v),
        Some(_) => Err(
            SpecMapError::TypeMismatch {
                column: SpecColumnRef::Name(col),
                expected: ScalarKind::F64,
            },
        ),
    }
}

/// What mapping an optional 64-bit floating point field yields.
pub open spec fn spec_optional_f64(row: Row, col: Seq<char>) -> Result<
    Option<SqlF64>,
    SpecMapError,
> {
    match row.spec_lookup(col) {
        None => Ok(None),
        Some(CellValue::F64(v)) => Ok(Some(v)),
        Some(_) => Err(
            SpecMapError::TypeMismatch {
                column: SpecColumnRef::Name(col),
                expected: ScalarKind::F64,
            },
        ),
    }
}

/// Map a required 32-bit integer field.
pub fn get_required_i32(row: &Row, column: &str) -> (r: Result<i32, MapError>)
    ensures
        crate::row::result_matches(r, spec_required_i32(*row, column@)),
{
    match row.get_by_name(column) {
        None => Err(MapError::CellAbsent { column: ColumnRef::Name(column.to_owned()) }),
        Some(CellValue::I32(v)) => Ok(*v),
        Some(_) => Err(
            MapError::TypeMismatch {
                column: ColumnRef::Name(column.to_owned()),
                expected: ScalarKind::I32,
            },
        ),
    }
}

/// Map an optional 32-bit integer field.
pub fn get_optional_i32(row: &Row, column: &str) -> (r: Result<Option<i32>, MapError>)
    ensures
        crate::row::result_matches(r, spec_optional_i32(*row, column@)),
{
    match row.get_by_name(column) {
        None => Ok(None),
        Some(CellValue::I32(v)) => Ok(Some(*v)),
        Some(_) => Err(
            MapError::TypeMismatch {
                column: ColumnRef::Name(column.to_owned()),
                expected: ScalarKind::I32,
            },
        ),
    }
}

/// Map a required text field.  The returned string is an owned copy of the
/// cell's text, independent of the row it came from.
pub fn get_required_text(row: &Row, column: &str) -> (r: Result<String, MapError>)
    ensures
        crate::row::result_matches(r, spec_required_text(*row, column@)),
{
    match row.get_by_name(column) {
        None => Err(MapError::CellAbsent { column: ColumnRef::Name(column.to_owned()) }),
        Some(CellValue::Text(s)) => Ok(s.clone()),
        Some(_) => Err(
            MapError::TypeMismatch {
                column: ColumnRef::Name(column.to_owned()),
                expected: ScalarKind::Text,
            },
        ),
    }
}

/// Map an optional text field.  A present value is an owned copy of the
/// cell's text, independent of the row it came from.
pub fn get_optional_text(row: &Row, column: &str) -> (r: Result<Option<String>, MapError>)
    ensures
        crate::row::result_matches(r, spec_optional_text(*row, column@)),
{
    match row.get_by_name(column) {
        None => Ok(None),
        Some(CellValue::Text(s)) => Ok(Some(s.clone())),
        Some(_) => Err(
            MapError::TypeMismatch {
                column: ColumnRef::Name(column.to_owned()),
                expected: ScalarKind::Text,
            },
        ),
    }
}

/// Map a required 64-bit floating point field.
pub fn get_required_f64(row: &Row, column: &str) -> (r: Result<SqlF64, MapError>)
    ensures
        crate::row::result_matches(r, spec_required_f64(*row, column@)),
{
    match row.get_by_name(column) {
        None => Err(MapError::CellAbsent { column: ColumnRef::Name(column.to_owned()) }),
        Some(CellValue::F64(v)) => Ok(*v),
        Some(_) => Err(
            MapError::TypeMismatch {
                column: ColumnRef::Name(column.to_owned()),
                expected: ScalarKind::F64,
            },
        ),
    }
}

/// Map an optional 64-bit floating point field.
pub fn get_optional_f64(row: &Row, column: &str) -> (r: Result<Option<SqlF64>, MapError>)
    ensures
        crate::row::result_matches(r, spec_optional_f64(*row, column@)),
{
    match row.get_by_name(column) {
        None => Ok(None),
        Some(CellValue::F64(v)) => Ok(Some(*v)),
        Some(_) => Err(
            MapError::TypeMismatch {
                column: ColumnRef::Name(column.to_owned()),
                expected: ScalarKind::F64,
            },
        ),
    }
}

} // verus!
