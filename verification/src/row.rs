//! The row model: named cells holding dynamically typed scalar values, and
//! the errors a row-to-record conversion can fail with.

use vstd::prelude::*;

verus! {

/// A 32-bit floating point cell value, carried by its bit pattern so that
/// record mapping never computes with it.
#[derive(Clone, Copy, PartialEq, Eq, Structural, Debug)]
pub struct SqlF32 {
    pub bits: u32,
}

/// A 64-bit floating point cell value, carried by its bit pattern.
#[derive(Clone, Copy, PartialEq, Eq, Structural, Debug)]
pub struct SqlF64 {
    pub bits: u64,
}

/// An arbitrary-precision decimal: an integer value scaled by a power of ten.
#[derive(Clone, Copy, PartialEq, Eq, Structural, Debug)]
pub struct SqlNumeric {
    pub value: i128,
    pub scale: u8,
}

/// A calendar date as a day number.
#[derive(Clone, Copy, PartialEq, Eq, Structural, Debug)]
pub struct SqlDate {
    pub days: i64,
}

/// A time of day in nanoseconds since midnight.
#[derive(Clone, Copy, PartialEq, Eq, Structural, Debug)]
pub struct SqlTime {
    pub nanoseconds: u64,
}

/// A combined date and time of day, without a timezone offset.
#[derive(Clone, Copy, PartialEq, Eq, Structural, Debug)]
pub struct SqlDateTime {
    pub date: SqlDate,
    pub time: SqlTime,
}

/// A combined date and time of day together with a timezone offset.
#[derive(Clone, Copy, PartialEq, Eq, Structural, Debug)]
pub struct SqlDateTimeOffset {
    pub value: SqlDateTime,
    pub offset_minutes: i16,
}

/// A universally-unique identifier as its 128-bit value.
#[derive(Clone, Copy, PartialEq, Eq, Structural, Debug)]
pub struct SqlUuid {
    pub bits: u128,
}

/// The scalar types a cell can hold.
#[derive(Clone, Copy, PartialEq, Eq, Structural, Debug)]
pub enum ScalarKind {
    U8,
    I16,
    I32,
    I64,
    F32,
    F64,
    Bool,
    Text,
    Numeric,
    Date,
    Time,
    DateTime,
    DateTimeOffset,
    Uuid,
}

/// One cell's dynamically typed value: a present scalar of some kind, or the
/// SQL "no value" state.
#[derive(Debug)]
pub enum CellValue {
    U8(u8),
    I16(i16),
    I32(i32),
    I64(i64),
    F32(SqlF32),
    F64(SqlF64),
    Bool(bool),
    Text(String),
    Numeric(SqlNumeric),
    Date(SqlDate),
    Time(SqlTime),
    DateTime(SqlDateTime),
    DateTimeOffset(SqlDateTimeOffset),
    Uuid(SqlUuid),
    Null,
}

impl CellValue {
    /// The scalar kind of a present value; a null cell has none.
    pub open spec fn spec_kind(self) -> Option<ScalarKind> {
        match self {
            CellValue::U8(_) => Some(ScalarKind::U8),
            CellValue::I16(_) => Some(ScalarKind::I16),
            CellValue::I32(_) => Some(ScalarKind::I32),
            CellValue::I64(_) => Some(ScalarKind::I64),
            CellValue::F32(_) => Some(ScalarKind::F32),
            CellValue::F64(_) => Some(ScalarKind::F64),
            CellValue::Bool(_) => Some(ScalarKind::Bool),
            CellValue::Text(_) => Some(ScalarKind::Text),
            CellValue::Numeric(_) => Some(ScalarKind::Numeric),
            CellValue::Date(_) => Some(ScalarKind::Date),
            CellValue::Time(_) => Some(ScalarKind::Time),
            CellValue::DateTime(_) => Some(ScalarKind::DateTime),
            CellValue::DateTimeOffset(_) => Some(ScalarKind::DateTimeOffset),
            CellValue::Uuid(_) => Some(ScalarKind::Uuid),
            CellValue::Null => None,
        }
    }

    /// The scalar kind of a present value; a null cell has none.
    pub fn kind(&self) -> (r: Option<ScalarKind>)
        ensures
            r == self.spec_kind(),
    {
        match self {
            CellValue::U8(_) => Some(ScalarKind::U8),
            CellValue::I16(_) => Some(ScalarKind::I16),
            CellValue::I32(_) => Some(ScalarKind::I32),
            CellValue::I64(_) => Some(ScalarKind::I64),
            CellValue::F32(_) => Some(ScalarKind::F32),
            CellValue::F64(_) => Some(ScalarKind::F64),
            CellValue::Bool(_) => Some(ScalarKind::Bool),
            CellValue::Text(_) => Some(ScalarKind::Text),
            CellValue::Numeric(_) => Some(ScalarKind::Numeric),
            CellValue::Date(_) => Some(ScalarKind::Date),
            CellValue::Time(_) => Some(ScalarKind::Time),
            CellValue::DateTime(_) => Some(ScalarKind::DateTime),
            CellValue::DateTimeOffset(_) => Some(ScalarKind::DateTimeOffset),
            CellValue::Uuid(_) => Some(ScalarKind::Uuid),
            CellValue::Null => None,
        }
    }
}

/// One named cell of a row.
#[derive(Debug)]
pub struct Cell {
    pub name: String,
    pub value: CellValue,
}

/// One record of a query result: an ordered sequence of named cells,
/// supporting lookup by column name and by position.  A lookup is "absent"
/// when no cell carries the name (or the position is out of range) or when
/// the cell holds the SQL "no value" state.
#[derive(Debug)]
pub struct Row {
    pub cells: Vec<Cell>,
}

/// The value of the first cell named `name`, with a null cell counting as
/// absent.
pub open spec fn lookup_cells(cells: Seq<Cell>, name: Seq<char>) -> Option<CellValue>
    decreases cells.len(),
{
    if cells.len() == 0 {
        None
    } else if cells[0].name@ == name {
        if cells[0].value is Null {
            None
        } else {
            Some(cells[0].value)
        }
    } else {
        lookup_cells(cells.drop_first(), name)
    }
}

impl Row {
    /// The value this row holds under the column name `name`, if any.
    pub open spec fn spec_lookup(self, name: Seq<char>) -> Option<CellValue> {
        lookup_cells(self.cells@, name)
    }

    /// The value this row holds at position `i`, if any.
    pub open spec fn spec_at(self, i: int) -> Option<CellValue> {
        if 0 <= i < self.cells@.len() {
            if self.cells@[i].value is Null {
                None
            } else {
                Some(self.cells@[i].value)
            }
        } else {
            None
        }
    }

    /// Look a cell up by column name; absent columns and null cells both
    /// yield `None`.
    pub fn get_by_name<'a>(&'a self, name: &str) -> (r: Option<&'a CellValue>)
        ensures
            match r {
                Some(c) => self.spec_lookup(name@) == Some(*c),
                None => self.spec_lookup(name@) is None,
            },
    {
        let n = self.cells.len();
        let mut i: usize = 0;
        proof {
            assert(self.cells@.skip(0) =~= self.cells@);
        }
        while i < n
            invariant
                n == self.cells@.len(),
                i <= n,
                lookup_cells(self.cells@.skip(i as int), name@) == self.spec_lookup(name@),
            decreases n - i,
        {
            proof {
                assert(self.cells@.skip(i as int)[0] == self.cells@[i as int]);
                assert(self.cells@.skip(i as int).drop_first() =~= self.cells@.skip(i as int + 1));
            }
            let cell = &self.cells[i];
            if str_eq(cell.name.as_str(), name) {
                match &cell.value {
                    CellValue::Null => {
                        return None;
                    },
                    _ => {
                        return Some(&cell.value);
                    },
                }
            }
            i += 1;
        }
        proof {
            assert(self.cells@.skip(n as int) =~= Seq::<Cell>::empty());
        }
        None
    }

    /// Look a cell up by position; positions out of range and null cells
    /// both yield `None`.
    pub fn get_by_index<'a>(&'a self, i: usize) -> (r: Option<&'a CellValue>)
        ensures
            match r {
                Some(c) => self.spec_at(i as int) == Some(*c),
                None => self.spec_at(i as int) is None,
            },
    {
        if i < self.cells.len() {
            let cell = &self.cells[i];
            match &cell.value {
                CellValue::Null => None,
                _ => Some(&cell.value),
            }
        } else {
            None
        }
    }
}

/// Compare two strings character by character.
pub fn str_eq(a: &str, b: &str) -> (r: bool)
    ensures
        r == (a@ == b@),
{
    let alen = a.unicode_len();
    let blen = b.unicode_len();
    if alen != blen {
        return false;
    }
    let mut i: usize = 0;
    while i < alen
        invariant
            alen == a@.len(),
            alen == b@.len(),
            i <= alen,
            forall|j: int| 0 <= j < i ==> a@[j] == b@[j],
        decreases alen - i,
    {
        if a.get_char(i) != b.get_char(i) {
            return false;
        }
        i += 1;
    }
    proof {
        assert(a@ =~= b@);
    }
    true
}

/// Which column a conversion failure is about: a resolved column name, or a
/// position for single-scalar queries.
#[derive(Debug)]
pub enum ColumnRef {
    Name(String),
    Index(usize),
}

/// The mathematical image of a [`ColumnRef`].
pub enum SpecColumnRef {
    Name(Seq<char>),
    Index(int),
}

impl View for ColumnRef {
    type V = SpecColumnRef;

    open spec fn view(&self) -> SpecColumnRef {
        match self {
            ColumnRef::Name(s) => SpecColumnRef::Name(s@),
            ColumnRef::Index(i) => SpecColumnRef::Index(*i as int),
        }
    }
}

/// Why one row could not be converted into one record.  A whole-record
/// conversion fails atomically with the first such error.
#[derive(Debug)]
pub enum MapError {
    /// A required field's resolved column produced no value.
    CellAbsent { column: ColumnRef },
    /// A cell's dynamic type does not match the field's declared type.
    TypeMismatch { column: ColumnRef, expected: ScalarKind },
}

/// The mathematical image of a [`MapError`].
pub enum SpecMapError {
    CellAbsent { column: SpecColumnRef },
    TypeMismatch { column: SpecColumnRef, expected: ScalarKind },
}

impl View for MapError {
    type V = SpecMapError;

    open spec fn view(&self) -> SpecMapError {
        match self {
            MapError::CellAbsent { column } => SpecMapError::CellAbsent { column: column@ },
            MapError::TypeMismatch { column, expected } => SpecMapError::TypeMismatch {
                column: column@,
                expected: *expected,
            },
        }
    }
}

/// An executable conversion outcome agrees with its mathematical
/// description: equal records on success, an error of the described image on
/// failure.
pub open spec fn result_matches<T>(r: Result<T, MapError>, s: Result<T, SpecMapError>) -> bool {
    match r {
        Ok(a) => s matches Ok(b) && a == b,
        Err(e) => s matches Err(se) && e@ == se,
    }
}

} // verus!
