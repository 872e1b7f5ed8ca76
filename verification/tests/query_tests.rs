use tiberqueries::query::{query_first_or_none, query_many, ExecutionAck};
use tiberqueries::records::Point;
use tiberqueries::row::{Cell, CellValue, ColumnRef, MapError, Row};

fn cell(name: &str, value: CellValue) -> Cell {
    Cell {
        name: name.to_string(),
        value,
    }
}

fn scalar_row(value: CellValue) -> Row {
    Row {
        cells: vec![cell("value", value)],
    }
}

fn point_row(x: i32, name: &str) -> Row {
    Row {
        cells: vec![
            cell("x", CellValue::I32(x)),
            cell("name", CellValue::Text(name.to_string())),
        ],
    }
}

#[test]
fn query_many_over_empty_result_set_is_empty_not_an_error() {
    let r: Result<Vec<i32>, MapError> = query_many(vec![]);
    assert_eq!(r.unwrap(), Vec::<i32>::new());
}

#[test]
fn query_many_converts_every_row_in_order() {
    let rows = vec![
        scalar_row(CellValue::I32(1)),
        scalar_row(CellValue::I32(2)),
        scalar_row(CellValue::I32(3)),
    ];
    let r: Vec<i32> = query_many(rows).unwrap();
    assert_eq!(r, vec![1, 2, 3]);
}

#[test]
fn query_many_fails_on_the_first_bad_row() {
    let rows = vec![
        scalar_row(CellValue::I32(1)),
        scalar_row(CellValue::Null),
        scalar_row(CellValue::Text("2".to_string())),
    ];
    let r: Result<Vec<i32>, MapError> = query_many(rows);
    match r {
        Err(MapError::CellAbsent {
            column: ColumnRef::Index(i),
        }) => assert_eq!(i, 0),
        other => panic!("unexpected outcome: {:?}", other),
    }
}

#[test]
fn query_first_or_none_over_empty_result_set_is_absent_not_an_error() {
    let r: Option<Point> = query_first_or_none(vec![]).unwrap();
    assert!(r.is_none());
}

#[test]
fn query_first_or_none_takes_only_the_first_row() {
    let rows = vec![point_row(1, "first"), point_row(2, "second")];
    let p: Point = query_first_or_none(rows).unwrap().unwrap();
    assert_eq!(p.x, 1);
    assert_eq!(p.name, "first");
}

#[test]
fn query_first_or_none_still_fails_on_a_bad_first_row() {
    let rows = vec![scalar_row(CellValue::Text("no".to_string())), point_row(1, "a")];
    let r: Result<Option<Point>, MapError> = query_first_or_none(rows);
    assert!(matches!(r, Err(MapError::CellAbsent { .. })));
}

#[test]
fn execution_ack_reports_affected_record_counts() {
    let ack = ExecutionAck {
        rows_affected: vec![3],
    };
    assert_eq!(ack.total(), 3);
    assert_eq!(ack.rows_affected, vec![3]);
}

#[test]
fn execution_ack_totals_all_statement_parts() {
    let ack = ExecutionAck {
        rows_affected: vec![1, 2, 4],
    };
    assert_eq!(ack.total(), 7);
    let empty = ExecutionAck {
        rows_affected: vec![],
    };
    assert_eq!(empty.total(), 0);
}
