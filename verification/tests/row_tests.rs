use tiberqueries::fetch::{
    fetch_optional, fetch_required, get_optional_i32, get_optional_text, get_required_i32,
    get_required_text,
};
use tiberqueries::fetch::{get_optional_f64, get_required_f64};
use tiberqueries::row::{Cell, CellValue, ColumnRef, MapError, Row, ScalarKind, SqlF64};
use tiberqueries::string;

fn cell(name: &str, value: CellValue) -> Cell {
    Cell {
        name: name.to_string(),
        value,
    }
}

fn sample_row() -> Row {
    Row {
        cells: vec![
            cell("x", CellValue::I32(5)),
            cell("y", CellValue::Null),
            cell("name", CellValue::Text("a".to_string())),
        ],
    }
}

#[test]
fn lookup_by_name_finds_first_match() {
    let row = Row {
        cells: vec![cell("x", CellValue::I32(1)), cell("x", CellValue::I32(2))],
    };
    match row.get_by_name("x") {
        Some(CellValue::I32(v)) => assert_eq!(*v, 1),
        other => panic!("unexpected cell: {:?}", other),
    }
}

#[test]
fn lookup_of_null_cell_is_absent() {
    let row = sample_row();
    assert!(row.get_by_name("y").is_none());
    assert!(row.get_by_name("missing").is_none());
}

#[test]
fn lookup_by_index_skips_nothing() {
    let row = sample_row();
    assert!(matches!(row.get_by_index(0), Some(CellValue::I32(5))));
    assert!(row.get_by_index(1).is_none());
    assert!(row.get_by_index(3).is_none());
}

#[test]
fn required_fetch_fails_on_absent_cell() {
    let row = sample_row();
    match fetch_required(&row, "missing", ScalarKind::I32) {
        Err(MapError::CellAbsent {
            column: ColumnRef::Name(n),
        }) => assert_eq!(n, "missing"),
        other => panic!("unexpected outcome: {:?}", other),
    }
}

#[test]
fn required_fetch_fails_on_wrong_kind() {
    let row = sample_row();
    match fetch_required(&row, "x", ScalarKind::Text) {
        Err(MapError::TypeMismatch {
            column: ColumnRef::Name(n),
            expected,
        }) => {
            assert_eq!(n, "x");
            assert_eq!(expected, ScalarKind::Text);
        }
        other => panic!("unexpected outcome: {:?}", other),
    }
}

#[test]
fn optional_fetch_turns_absence_into_no_value() {
    let row = sample_row();
    assert!(matches!(fetch_optional(&row, "y", ScalarKind::I32), Ok(None)));
    assert!(matches!(
        fetch_optional(&row, "missing", ScalarKind::I32),
        Ok(None)
    ));
    assert!(matches!(
        fetch_optional(&row, "x", ScalarKind::I32),
        Ok(Some(CellValue::I32(5)))
    ));
    assert!(matches!(
        fetch_optional(&row, "x", ScalarKind::Text),
        Err(MapError::TypeMismatch { .. })
    ));
}

#[test]
fn typed_getters_follow_the_emission_shapes() {
    let row = sample_row();
    assert_eq!(get_required_i32(&row, "x").unwrap(), 5);
    assert!(get_optional_i32(&row, "y").unwrap().is_none());
    assert_eq!(get_required_text(&row, "name").unwrap(), "a");
    assert!(get_optional_text(&row, "description").unwrap().is_none());
    assert!(matches!(
        get_required_i32(&row, "name"),
        Err(MapError::TypeMismatch { .. })
    ));
    assert!(matches!(
        get_required_text(&row, "missing"),
        Err(MapError::CellAbsent { .. })
    ));
}

#[test]
fn mapped_text_is_an_independent_copy() {
    let mut row = sample_row();
    let mapped = get_required_text(&row, "name").unwrap();
    row.cells[2].value = CellValue::Text("changed".to_string());
    assert_eq!(mapped, "a");
    drop(row);
    assert_eq!(mapped, "a");
}

#[test]
fn string_helper_copies_borrowed_text() {
    let source = "hello".to_string();
    let copied = string(Some(source.as_str()));
    drop(source);
    assert_eq!(copied, Some("hello".to_string()));
    assert_eq!(string(None), None);
}

#[test]
fn f64_getters_follow_the_emission_shapes() {
    let row = Row {
        cells: vec![
            cell(
                "measure",
                CellValue::F64(SqlF64 {
                    bits: 1.5f64.to_bits(),
                }),
            ),
            cell("empty", CellValue::Null),
        ],
    };
    let v = get_required_f64(&row, "measure").unwrap();
    assert_eq!(f64::from_bits(v.bits), 1.5);
    assert!(get_optional_f64(&row, "empty").unwrap().is_none());
    assert!(matches!(
        get_optional_f64(&row, "measure").unwrap(),
        Some(SqlF64 { .. })
    ));
    assert!(matches!(
        get_required_f64(&row, "gone"),
        Err(MapError::CellAbsent { .. })
    ));
}
