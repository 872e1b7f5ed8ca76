//! The primitive mapping table: one mapping-contract implementation per
//! scalar type the row source decodes directly.  Each one fetches the cell
//! at position 0 and narrows it to the exact target type, failing if the
//! cell is absent or of another kind; it serves queries that return a single
//! scalar column rather than a composite record.

use vstd::prelude::*;

use crate::row::{
    CellValue, ColumnRef, MapError, Row, ScalarKind, SpecColumnRef, SpecMapError, SqlDate,
    SqlDateTime, SqlDateTimeOffset, SqlF32, SqlF64, SqlNumeric, SqlTime, SqlUuid,
};
use crate::FromRow;

verus! {

impl FromRow for u8 {
    open spec fn spec_from_row(row: Row) -> Result<u8, SpecMapError> {
        match row.spec_at(0) {
            None => Err(SpecMapError::CellAbsent { column: SpecColumnRef::Index(0) }),
            Some(CellValue::U8(v)) => Ok(v),
            Some(_) => Err(
                SpecMapError::TypeMismatch {
                    column: SpecColumnRef::Index(0),
                    expected: ScalarKind::U8,
                },
            ),
        }
    }

    fn from_row(row: Row) -> Result<u8, MapError> {
        match row.get_by_index(0) {
            None => Err(MapError::CellAbsent { column: ColumnRef::Index(0) }),
            Some(CellValue::U8(v)) => Ok(*v),
            Some(_) => Err(
                MapError::TypeMismatch {
                    column: ColumnRef::Index(0),
                    expected: ScalarKind::U8,
                },
            ),
        }
    }
}

impl FromRow for i16 {
    open spec fn spec_from_row(row: Row) -> Result<i16, SpecMapError> {
        match row.spec_at(0) {
            None => Err(SpecMapError::CellAbsent { column: SpecColumnRef::Index(0) }),
            Some(CellValue::I16(v)) => Ok(v),
            Some(_) => Err(
                SpecMapError::TypeMismatch {
                    column: SpecColumnRef::Index(0),
                    expected: ScalarKind::I16,
                },
            ),
        }
    }

    fn from_row(row: Row) -> Result<i16, MapError> {
        match row.get_by_index(0) {
            None => Err(MapError::CellAbsent { column: ColumnRef::Index(0) }),
            Some(CellValue::I16(v)) => Ok(*v),
            Some(_) => Err(
                MapError::TypeMismatch {
                    column: ColumnRef::Index(0),
                    expected: ScalarKind::I16,
                },
            ),
        }
    }
}

impl FromRow for i32 {
    open spec fn spec_from_row(row: Row) -> Result<i32, SpecMapError> {
        match row.spec_at(0) {
            None => Err(SpecMapError::CellAbsent { column: SpecColumnRef::Index(0) }),
            Some(CellValue::I32(v)) => Ok(v),
            Some(_) => Err(
                SpecMapError::TypeMismatch {
                    column: SpecColumnRef::Index(0),
                    expected: ScalarKind::I32,
                },
            ),
        }
    }

    fn from_row(row: Row) -> Result<i32, MapError> {
        match row.get_by_index(0) {
            None => Err(MapError::CellAbsent { column: ColumnRef::Index(0) }),
            Some(CellValue::I32(v)) => Ok(*v),
            Some(_) => Err(
                MapError::TypeMismatch {
                    column: ColumnRef::Index(0),
                    expected: ScalarKind::I32,
                },
            ),
        }
    }
}

impl FromRow for i64 {
    open spec fn spec_from_row(row: Row) -> Result<i64, SpecMapError> {
        match row.spec_at(0) {
            None => Err(SpecMapError::CellAbsent { column: SpecColumnRef::Index(0) }),
            Some(CellValue::I64(v)) => Ok(v),
            Some(_) => Err(
                SpecMapError::TypeMismatch {
                    column: SpecColumnRef::Index(0),
                    expected: ScalarKind::I64,
                },
            ),
        }
    }

    fn from_row(row: Row) -> Result<i64, MapError> {
        match row.get_by_index(0) {
            None => Err(MapError::CellAbsent { column: ColumnRef::Index(0) }),
            Some(CellValue::I64(v)) => Ok(*v),
            Some(_) => Err(
                MapError::TypeMismatch {
                    column: ColumnRef::Index(0),
                    expected: ScalarKind::I64,
                },
            ),
        }
    }
}

impl FromRow for SqlF32 {
    open spec fn spec_from_row(row: Row) -> Result<SqlF32, SpecMapError> {
        match row.spec_at(0) {
            None => Err(SpecMapError::CellAbsent { column: SpecColumnRef::Index(0) }),
            Some(CellValue::F32(v)) => Ok(v),
            Some(_) => Err(
                SpecMapError::TypeMismatch {
                    column: SpecColumnRef::Index(0),
                    expected: ScalarKind::F32,
                },
            ),
        }
    }

    fn from_row(row: Row) -> Result<SqlF32, MapError> {
        match row.get_by_index(0) {
            None => Err(MapError::CellAbsent { column: ColumnRef::Index(0) }),
            Some(CellValue::F32(v)) => Ok(*v),
            Some(_) => Err(
                MapError::TypeMismatch {
                    column: ColumnRef::Index(0),
                    expected: ScalarKind::F32,
                },
            ),
        }
    }
}

impl FromRow for SqlF64 {
    open spec fn spec_from_row(row: Row) -> Result<SqlF64, SpecMapError> {
        match row.spec_at(0) {
            None => Err(SpecMapError::CellAbsent { column: SpecColumnRef::Index(0) }),
            Some(CellValue::F64(v)) => Ok(v),
            Some(_) => Err(
                SpecMapError::TypeMismatch {
                    column: SpecColumnRef::Index(0),
                    expected: ScalarKind::F64,
                },
            ),
        }
    }

    fn from_row(row: Row) -> Result<SqlF64, MapError> {
        match row.get_by_index(0) {
            None => Err(MapError::CellAbsent { column: ColumnRef::Index(0) }),
            Some(CellValue::F64(v)) => Ok(*v),
            Some(_) => Err(
                MapError::TypeMismatch {
                    column: ColumnRef::Index(0),
                    expected: ScalarKind::F64,
                },
            ),
        }
    }
}

impl FromRow for bool {
    open spec fn spec_from_row(row: Row) -> Result<bool, SpecMapError> {
        match row.spec_at(0) {
            None => Err(SpecMapError::CellAbsent { column: SpecColumnRef::Index(0) }),
            Some(CellValue::Bool(v)) => Ok(v),
            Some(_) => Err(
                SpecMapError::TypeMismatch {
                    column: SpecColumnRef::Index(0),
                    expected: ScalarKind::Bool,
                },
            ),
        }
    }

    fn from_row(row: Row) -> Result<bool, MapError> {
        match row.get_by_index(0) {
            None => Err(MapError::CellAbsent { column: ColumnRef::Index(0) }),
            Some(CellValue::Bool(v)) => Ok(*v),
            Some(_) => Err(
                MapError::TypeMismatch {
                    column: ColumnRef::Index(0),
                    expected: ScalarKind::Bool,
                },
            ),
        }
    }
}

impl FromRow for String {
    open spec fn spec_from_row(row: Row) -> Result<String, SpecMapError> {
        match row.spec_at(0) {
            None => Err(SpecMapError::CellAbsent { column: SpecColumnRef::Index(0) }),
            Some(CellValue::Text(v)) => Ok(v),
            Some(_) => Err(
                SpecMapError::TypeMismatch {
                    column: SpecColumnRef::Index(0),
                    expected: ScalarKind::Text,
                },
            ),
        }
    }

    fn from_row(row: Row) -> Result<String, MapError> {
        match row.get_by_index(0) {
            None => Err(MapError::CellAbsent { column: ColumnRef::Index(0) }),
            Some(CellValue::Text(v)) => Ok(v.clone()),
            Some(_) => Err(
                MapError::TypeMismatch {
                    column: ColumnRef::Index(0),
                    expected: ScalarKind::Text,
                },
            ),
        }
    }
}

impl FromRow for SqlNumeric {
    open spec fn spec_from_row(row: Row) -> Result<SqlNumeric, SpecMapError> {
        match row.spec_at(0) {
            None => Err(SpecMapError::CellAbsent { column: SpecColumnRef::Index(0) }),
            Some(CellValue::Numeric(v)) => Ok(v),
            Some(_) => Err(
                SpecMapError::TypeMismatch {
                    column: SpecColumnRef::Index(0),
                    expected: ScalarKind::Numeric,
                },
            ),
        }
    }

    fn from_row(row: Row) -> Result<SqlNumeric, MapError> {
        match row.get_by_index(0) {
            None => Err(MapError::CellAbsent { column: ColumnRef::Index(0) }),
            Some(CellValue::Numeric(v)) => Ok(*v),
            Some(_) => Err(
                MapError::TypeMismatch {
                    column: ColumnRef::Index(0),
                    expected: ScalarKind::Numeric,
                },
            ),
        }
    }
}

impl FromRow for SqlDate {
    open spec fn spec_from_row(row: Row) -> Result<SqlDate, SpecMapError> {
        match row.spec_at(0) {
            None => Err(SpecMapError::CellAbsent { column: SpecColumnRef::Index(0) }),
            Some(CellValue::Date(v)) => Ok(v),
            Some(_) => Err(
                SpecMapError::TypeMismatch {
                    column: SpecColumnRef::Index(0),
                    expected: ScalarKind::Date,
                },
            ),
        }
    }

    fn from_row(row: Row) -> Result<SqlDate, MapError> {
        match row.get_by_index(0) {
            None => Err(MapError::CellAbsent { column: ColumnRef::Index(0) }),
            Some(CellValue::Date(v)) => Ok(*v),
            Some(_) => Err(
                MapError::TypeMismatch {
                    column: ColumnRef::Index(0),
                    expected: ScalarKind::Date,
                },
            ),
        }
    }
}

impl FromRow for SqlTime {
    open spec fn spec_from_row(row: Row) -> Result<SqlTime, SpecMapError> {
        match row.spec_at(0) {
            None => Err(SpecMapError::CellAbsent { column: SpecColumnRef::Index(0) }),
            Some(CellValue::Time(v)) => Ok(v),
            Some(_) => Err(
                SpecMapError::TypeMismatch {
                    column: SpecColumnRef::Index(0),
                    expected: ScalarKind::Time,
                },
            ),
        }
    }

    fn from_row(row: Row) -> Result<SqlTime, MapError> {
        match row.get_by_index(0) {
            None => Err(MapError::CellAbsent { column: ColumnRef::Index(0) }),
            Some(CellValue::Time(v)) => Ok(*v),
            Some(_) => Err(
                MapError::TypeMismatch {
                    column: ColumnRef::Index(0),
                    expected: ScalarKind::Time,
                },
            ),
        }
    }
}

impl FromRow for SqlDateTime {
    open spec fn spec_from_row(row: Row) -> Result<SqlDateTime, SpecMapError> {
        match row.spec_at(0) {
            None => Err(SpecMapError::CellAbsent { column: SpecColumnRef::Index(0) }),
            Some(CellValue::DateTime(v)) => Ok(v),
            Some(_) => Err(
                SpecMapError::TypeMismatch {
                    column: SpecColumnRef::Index(0),
                    expected: ScalarKind::DateTime,
                },
            ),
        }
    }

    fn from_row(row: Row) -> Result<SqlDateTime, MapError> {
        match row.get_by_index(0) {
            None => Err(MapError::CellAbsent { column: ColumnRef::Index(0) }),
            Some(CellValue::DateTime(v)) => Ok(*v),
            Some(_) => Err(
                MapError::TypeMismatch {
                    column: ColumnRef::Index(0),
                    expected: ScalarKind::DateTime,
                },
            ),
        }
    }
}

impl FromRow for SqlDateTimeOffset {
    open spec fn spec_from_row(row: Row) -> Result<SqlDateTimeOffset, SpecMapError> {
        match row.spec_at(0) {
            None => Err(SpecMapError::CellAbsent { column: SpecColumnRef::Index(0) }),
            Some(CellValue::DateTimeOffset(v)) => Ok(v),
            Some(_) => Err(
                SpecMapError::TypeMismatch {
                    column: SpecColumnRef::Index(0),
                    expected: ScalarKind::DateTimeOffset,
                },
            ),
        }
    }

    fn from_row(row: Row) -> Result<SqlDateTimeOffset, MapError> {
        match row.get_by_index(0) {
            None => Err(MapError::CellAbsent { column: ColumnRef::Index(0) }),
            Some(CellValue::DateTimeOffset(v)) => Ok(*v),
            Some(_) => Err(
                MapError::TypeMismatch {
                    column: ColumnRef::Index(0),
                    expected: ScalarKind::DateTimeOffset,
                },
            ),
        }
    }
}

impl FromRow for SqlUuid {
    open spec fn spec_from_row(row: Row) -> Result<SqlUuid, SpecMapError> {
        match row.spec_at(0) {
            None => Err(SpecMapError::CellAbsent { column: SpecColumnRef::Index(0) }),
            Some(CellValue::Uuid(v)) => Ok(v),
            Some(_) => Err(
                SpecMapError::TypeMismatch {
                    column: SpecColumnRef::Index(0),
                    expected: ScalarKind::Uuid,
                },
            ),
        }
    }

    fn from_row(row: Row) -> Result<SqlUuid, MapError> {
        match row.get_by_index(0) {
            None => Err(MapError::CellAbsent { column: ColumnRef::Index(0) }),
            Some(CellValue::Uuid(v)) => Ok(*v),
            Some(_) => Err(
                MapError::TypeMismatch {
                    column: ColumnRef::Index(0),
                    expected: ScalarKind::Uuid,
                },
            ),
        }
    }
}

} // verus!
