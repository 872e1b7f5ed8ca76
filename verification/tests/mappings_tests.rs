use tiberqueries::row::{
    Cell, CellValue, ColumnRef, MapError, Row, ScalarKind, SqlDate, SqlDateTime,
    SqlDateTimeOffset, SqlF32, SqlF64, SqlNumeric, SqlTime, SqlUuid,
};
use tiberqueries::FromRow;

fn single(value: CellValue) -> Row {
    Row {
        cells: vec![Cell {
            name: "value".to_string(),
            value,
        }],
    }
}

#[test]
fn scalar_integers_decode_from_column_zero() {
    assert_eq!(u8::from_row(single(CellValue::U8(7))).unwrap(), 7);
    assert_eq!(i16::from_row(single(CellValue::I16(-2))).unwrap(), -2);
    assert_eq!(i32::from_row(single(CellValue::I32(100_000))).unwrap(), 100_000);
    assert_eq!(
        i64::from_row(single(CellValue::I64(-5_000_000_000))).unwrap(),
        -5_000_000_000
    );
}

#[test]
fn scalar_floats_decode_from_column_zero() {
    let f = SqlF32 {
        bits: 2.5f32.to_bits(),
    };
    assert_eq!(f32::from_bits(SqlF32::from_row(single(CellValue::F32(f))).unwrap().bits), 2.5);
    let d = SqlF64 {
        bits: 6.25f64.to_bits(),
    };
    assert_eq!(f64::from_bits(SqlF64::from_row(single(CellValue::F64(d))).unwrap().bits), 6.25);
}

#[test]
fn scalar_bool_and_text_decode_from_column_zero() {
    assert!(bool::from_row(single(CellValue::Bool(true))).unwrap());
    let s = String::from_row(single(CellValue::Text("owned".to_string()))).unwrap();
    assert_eq!(s, "owned");
}

#[test]
fn scalar_temporal_values_decode_from_column_zero() {
    let date = SqlDate { days: 738000 };
    assert_eq!(SqlDate::from_row(single(CellValue::Date(date))).unwrap(), date);
    let time = SqlTime {
        nanoseconds: 43_200_000_000_000,
    };
    assert_eq!(SqlTime::from_row(single(CellValue::Time(time))).unwrap(), time);
    let dt = SqlDateTime { date, time };
    assert_eq!(
        SqlDateTime::from_row(single(CellValue::DateTime(dt))).unwrap(),
        dt
    );
    let dto = SqlDateTimeOffset {
        value: dt,
        offset_minutes: -120,
    };
    assert_eq!(
        SqlDateTimeOffset::from_row(single(CellValue::DateTimeOffset(dto))).unwrap(),
        dto
    );
}

#[test]
fn scalar_uuid_and_numeric_decode_from_column_zero() {
    let id = SqlUuid {
        bits: 0x0123_4567_89ab_cdef_0123_4567_89ab_cdef,
    };
    assert_eq!(SqlUuid::from_row(single(CellValue::Uuid(id))).unwrap(), id);
    let n = SqlNumeric {
        value: 314159,
        scale: 5,
    };
    assert_eq!(SqlNumeric::from_row(single(CellValue::Numeric(n))).unwrap(), n);
}

#[test]
fn scalar_decode_fails_on_empty_row() {
    let row = Row { cells: vec![] };
    match i32::from_row(row) {
        Err(MapError::CellAbsent {
            column: ColumnRef::Index(i),
        }) => assert_eq!(i, 0),
        other => panic!("unexpected outcome: {:?}", other),
    }
}

#[test]
fn scalar_decode_fails_on_null_cell() {
    let r = i64::from_row(single(CellValue::Null));
    assert!(matches!(
        r,
        Err(MapError::CellAbsent {
            column: ColumnRef::Index(0)
        })
    ));
}

#[test]
fn scalar_decode_fails_on_mismatched_kind() {
    match bool::from_row(single(CellValue::I32(1))) {
        Err(MapError::TypeMismatch {
            column: ColumnRef::Index(0),
            expected,
        }) => assert_eq!(expected, ScalarKind::Bool),
        other => panic!("unexpected outcome: {:?}", other),
    }
}
