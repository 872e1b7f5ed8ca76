//! Mapping-contract implementations for composite record types.
//!
//! A target record type declares its fields once; its implementation of the
//! contract is then assembled from the shared helpers in [`crate::fetch`],
//! one fetch per field in the emission shape the analyzer prescribes:
//! required fields fail on an absent cell, optional fields turn absence into
//! the "no value" state, and text is copied into owned form.  The two
//! records here are the canonical such targets, one without and one with the
//! type-level naming-convention directive.

use vstd::prelude::*;

use crate::fetch::{
    get_optional_i32, get_optional_text, get_required_f64, get_required_i32, get_required_text,
    spec_optional_i32, spec_optional_text, spec_required_f64, spec_required_i32,
    spec_required_text,
};
use crate::row::{MapError, Row, SpecMapError, SqlF64};
use crate::shape::{pascal_of, resolve_column_name};
use crate::FromRow;

verus! {

/// A record without the convention directive and without overrides: every
/// field reads the column named exactly like itself.
#[derive(Debug)]
pub struct Point {
    pub x: i32,
    pub y: Option<i32>,
    pub name: String,
    pub description: Option<String>,
}

impl FromRow for Point {
    open spec fn spec_from_row(row: Row) -> Result<Point, SpecMapError> {
        match spec_required_i32(row, "x"@) {
            Err(e) => Err(e),
            Ok(x) => match spec_optional_i32(row, "y"@) {
                Err(e) => Err(e),
                Ok(y) => match spec_required_text(row, "name"@) {
                    Err(e) => Err(e),
                    Ok(name) => match spec_optional_text(row, "description"@) {
                        Err(e) => Err(e),
                        Ok(description) => Ok(
                            Point { x: x, y: y, name: name, description: description },
                        ),
                    },
                },
            },
        }
    }

    fn from_row(row: Row) -> Result<Point, MapError> {
        let x = match get_required_i32(&row, "x") {
            Ok(v) => v,
            Err(e) => {
                return Err(e);
            },
        };
        let y = match get_optional_i32(&row, "y") {
            Ok(v) => v,
            Err(e) => {
                return Err(e);
            },
        };
        let name = match get_required_text(&row, "name") {
            Ok(v) => v,
            Err(e) => {
                return Err(e);
            },
        };
        let description = match get_optional_text(&row, "description") {
            Ok(v) => v,
            Err(e) => {
                return Err(e);
            },
        };
        Ok(Point { x: x, y: y, name: name, description: description })
    }
}

/// A record carrying the type-level convention directive: its field reads
/// the capitalized-word-boundary form of its name, so `super_description`
/// resolves to the column `SuperDescription` and the verbatim name finds
/// nothing.
#[derive(Debug)]
pub struct Detail {
    pub super_description: SqlF64,
}

impl FromRow for Detail {
    open spec fn spec_from_row(row: Row) -> Result<Detail, SpecMapError> {
        match spec_required_f64(row, pascal_of("super_description"@)) {
            Err(e) => Err(e),
            Ok(v) => Ok(Detail { super_description: v }),
        }
    }

    fn from_row(row: Row) -> Result<Detail, MapError> {
        let column = resolve_column_name("super_description", None, true);
        match get_required_f64(&row, column.as_str()) {
            Ok(v) => Ok(Detail { super_description: v }),
            Err(e) => Err(e),
        }
    }
}

} // verus!
