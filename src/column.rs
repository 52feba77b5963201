use vstd::prelude::*;
use crate::order::Datum;
use crate::scalar::{text_datum, AggError, ElementType, ScalarValue};

verus! {

pub open spec fn bool_cell(o: Option<bool>) -> Option<Datum> {
    match o {
        Some(x) => Some(Datum::Bool(x)),
        None => None,
    }
}

pub open spec fn i8_cell(o: Option<i8>) -> Option<Datum> {
    match o {
        Some(x) => Some(Datum::Int(x as int)),
        None => None,
    }
}

pub open spec fn i16_cell(o: Option<i16>) -> Option<Datum> {
    match o {
        Some(x) => Some(Datum::Int(x as int)),
        None => None,
    }
}

pub open spec fn i32_cell(o: Option<i32>) -> Option<Datum> {
    match o {
        Some(x) => Some(Datum::Int(x as int)),
        None => None,
    }
}

pub open spec fn i64_cell(o: Option<i64>) -> Option<Datum> {
    match o {
        Some(x) => Some(Datum::Int(x as int)),
        None => None,
    }
}

pub open spec fn i128_cell(o: Option<i128>) -> Option<Datum> {
    match o {
        Some(x) => Some(Datum::Int(x as int)),
        None => None,
    }
}

pub open spec fn u8_cell(o: Option<u8>) -> Option<Datum> {
    match o {
        Some(x) => Some(Datum::Int(x as int)),
        None => None,
    }
}

pub open spec fn u16_cell(o: Option<u16>) -> Option<Datum> {
    match o {
        Some(x) => Some(Datum::Int(x as int)),
        None => None,
    }
}

pub open spec fn u32_cell(o: Option<u32>) -> Option<Datum> {
    match o {
        Some(x) => Some(Datum::Int(x as int)),
        None => None,
    }
}

pub open spec fn u64_cell(o: Option<u64>) -> Option<Datum> {
    match o {
        Some(x) => Some(Datum::Int(x as int)),
        None => None,
    }
}

pub open spec fn text_cell(o: Option<String>) -> Option<Datum> {
    match o {
        Some(s) => Some(text_datum(s)),
        None => None,
    }
}

pub open spec fn bool_cells(v: Seq<Option<bool>>) -> Seq<Option<Datum>> {
    v.map_values(|o: Option<bool>| bool_cell(o))
}

pub open spec fn i8_cells(v: Seq<Option<i8>>) -> Seq<Option<Datum>> {
    v.map_values(|o: Option<i8>| i8_cell(o))
}

pub open spec fn i16_cells(v: Seq<Option<i16>>) -> Seq<Option<Datum>> {
    v.map_values(|o: Option<i16>| i16_cell(o))
}

pub open spec fn i32_cells(v: Seq<Option<i32>>) -> Seq<Option<Datum>> {
    v.map_values(|o: Option<i32>| i32_cell(o))
}

pub open spec fn i64_cells(v: Seq<Option<i64>>) -> Seq<Option<Datum>> {
    v.map_values(|o: Option<i64>| i64_cell(o))
}

pub open spec fn i128_cells(v: Seq<Option<i128>>) -> Seq<Option<Datum>> {
    v.map_values(|o: Option<i128>| i128_cell(o))
}

pub open spec fn u8_cells(v: Seq<Option<u8>>) -> Seq<Option<Datum>> {
    v.map_values(|o: Option<u8>| u8_cell(o))
}

pub open spec fn u16_cells(v: Seq<Option<u16>>) -> Seq<Option<Datum>> {
    v.map_values(|o: Option<u16>| u16_cell(o))
}

pub open spec fn u32_cells(v: Seq<Option<u32>>) -> Seq<Option<Datum>> {
    v.map_values(|o: Option<u32>| u32_cell(o))
}

pub open spec fn u64_cells(v: Seq<Option<u64>>) -> Seq<Option<Datum>> {
    v.map_values(|o: Option<u64>| u64_cell(o))
}

pub open spec fn text_cells(v: Seq<Option<String>>) -> Seq<Option<Datum>> {
    v.map_values(|o: Option<String>| text_cell(o))
}

/// A column of one element type, each cell valid (`Some`) or null (`None`).
/// It is both what updates read and the builder that `save` appends to.
#[derive(Debug, Clone, PartialEq, Eq)]
pub enum Column {
    /// A column of the given number of nulls.
    Null(usize),
    Boolean(Vec<Option<bool>>),
    Int8(Vec<Option<i8>>),
    Int16(Vec<Option<i16>>),
    Int32(Vec<Option<i32>>),
    Int64(Vec<Option<i64>>),
    UInt8(Vec<Option<u8>>),
    UInt16(Vec<Option<u16>>),
    UInt32(Vec<Option<u32>>),
    UInt64(Vec<Option<u64>>),
    /// Unscaled values, precision, scale.
    Decimal128(Vec<Option<i128>>, u8, i8),
    Utf8(Vec<Option<String>>),
    Date32(Vec<Option<i32>>),
    Date64(Vec<Option<i64>>),
}

impl Column {
    pub open spec fn data_type(self) -> ElementType {
        match self {
            Column::Null(_) => ElementType::Null,
            Column::Boolean(_) => ElementType::Boolean,
            Column::Int8(_) => ElementType::Int8,
            Column::Int16(_) => ElementType::Int16,
            Column::Int32(_) => ElementType::Int32,
            Column::Int64(_) => ElementType::Int64,
            Column::UInt8(_) => ElementType::UInt8,
            Column::UInt16(_) => ElementType::UInt16,
            Column::UInt32(_) => ElementType::UInt32,
            Column::UInt64(_) => ElementType::UInt64,
            Column::Decimal128(_, p, s) => ElementType::Decimal128(p, s),
            Column::Utf8(_) => ElementType::Utf8,
            Column::Date32(_) => ElementType::Date32,
            Column::Date64(_) => ElementType::Date64,
        }
    }

    /// The cells as values, `None` for null.
    pub open spec fn cells(self) -> Seq<Option<Datum>> {
        match self {
            Column::Null(n) => Seq::new(n as nat, |i: int| None::<Datum>),
            Column::Boolean(v) => bool_cells(v@),
            Column::Int8(v) => i8_cells(v@),
            Column::Int16(v) => i16_cells(v@),
            Column::Int32(v) => i32_cells(v@),
            Column::Int64(v) => i64_cells(v@),
            Column::UInt8(v) => u8_cells(v@),
            Column::UInt16(v) => u16_cells(v@),
            Column::UInt32(v) => u32_cells(v@),
            Column::UInt64(v) => u64_cells(v@),
            Column::Decimal128(v, _, _) => i128_cells(v@),
            Column::Utf8(v) => text_cells(v@),
            Column::Date32(v) => i32_cells(v@),
            Column::Date64(v) => i64_cells(v@),
        }
    }

    /// An empty builder for a type; `None` for a type the maximum does not implement.
    pub fn new_empty(t: &ElementType) -> (r: Option<Column>)
        ensures
            r is Some <==> !(*t is Unsupported),
            r is Some ==> r->0.data_type() == *t && r->0.cells().len() == 0,
    {
        match t {
            ElementType::Null => Some(Column::Null(0)),
            ElementType::Boolean => Some(Column::Boolean(Vec::new())),
            ElementType::Int8 => Some(Column::Int8(Vec::new())),
            ElementType::Int16 => Some(Column::Int16(Vec::new())),
            ElementType::Int32 => Some(Column::Int32(Vec::new())),
            ElementType::Int64 => Some(Column::Int64(Vec::new())),
            ElementType::UInt8 => Some(Column::UInt8(Vec::new())),
            ElementType::UInt16 => Some(Column::UInt16(Vec::new())),
            ElementType::UInt32 => Some(Column::UInt32(Vec::new())),
            ElementType::UInt64 => Some(Column::UInt64(Vec::new())),
            ElementType::Decimal128(p, s) => Some(Column::Decimal128(Vec::new(), *p, *s)),
            ElementType::Utf8 => Some(Column::Utf8(Vec::new())),
            ElementType::Date32 => Some(Column::Date32(Vec::new())),
            ElementType::Date64 => Some(Column::Date64(Vec::new())),
            ElementType::Unsupported(_) => None,
        }
    }

    pub fn len(&self) -> (r: usize)
        ensures
            r == self.cells().len(),
    {
        match self {
            Column::Null(n) => *n,
            Column::Boolean(v) => v.len(),
            Column::Int8(v) => v.len(),
            Column::Int16(v) => v.len(),
            Column::Int32(v) => v.len(),
            Column::Int64(v) => v.len(),
            Column::UInt8(v) => v.len(),
            Column::UInt16(v) => v.len(),
            Column::UInt32(v) => v.len(),
            Column::UInt64(v) => v.len(),
            Column::Decimal128(v, _, _) => v.len(),
            Column::Utf8(v) => v.len(),
            Column::Date32(v) => v.len(),
            Column::Date64(v) => v.len(),
        }
    }

    pub fn get_datatype(&self) -> (r: ElementType)
        ensures
            r == self.data_type(),
    {
        match self {
            Column::Null(_) => ElementType::Null,
            Column::Boolean(_) => ElementType::Boolean,
            Column::Int8(_) => ElementType::Int8,
            Column::Int16(_) => ElementType::Int16,
            Column::Int32(_) => ElementType::Int32,
            Column::Int64(_) => ElementType::Int64,
            Column::UInt8(_) => ElementType::UInt8,
            Column::UInt16(_) => ElementType::UInt16,
            Column::UInt32(_) => ElementType::UInt32,
            Column::UInt64(_) => ElementType::UInt64,
            Column::Decimal128(_, p, s) => ElementType::Decimal128(*p, *s),
            Column::Utf8(_) => ElementType::Utf8,
            Column::Date32(_) => ElementType::Date32,
            Column::Date64(_) => ElementType::Date64,
        }
    }

    /// The cell at `row` as a value of the column's type.
    pub fn get(&self, row: usize) -> (r: ScalarValue)
        requires
            row < self.cells().len(),
        ensures
            r.data_type() == self.data_type(),
            r.value() == self.cells()[row as int],
    {
        match self {
            Column::Null(_) => ScalarValue::Null,
            Column::Boolean(v) => ScalarValue::Boolean(v[row]),
            Column::Int8(v) => ScalarValue::Int8(v[row]),
            Column::Int16(v) => ScalarValue::Int16(v[row]),
            Column::Int32(v) => ScalarValue::Int32(v[row]),
            Column::Int64(v) => ScalarValue::Int64(v[row]),
            Column::UInt8(v) => ScalarValue::UInt8(v[row]),
            Column::UInt16(v) => ScalarValue::UInt16(v[row]),
            Column::UInt32(v) => ScalarValue::UInt32(v[row]),
            Column::UInt64(v) => ScalarValue::UInt64(v[row]),
            Column::Decimal128(v, p, s) => ScalarValue::Decimal128(v[row], *p, *s),
            Column::Utf8(v) => ScalarValue::Utf8(
                match &v[row] {
                    Some(s) => Some(s.clone()),
                    None => None,
                },
            ),
            Column::Date32(v) => ScalarValue::Date32(v[row]),
            Column::Date64(v) => ScalarValue::Date64(v[row]),
        }
    }

    /// Appends a value (or its null) of the column's type.
    pub fn push(&mut self, v: ScalarValue) -> (r: Result<(), AggError>)
        requires
            old(self).cells().len() < usize::MAX,
        ensures
            r is Ok <==> v.data_type() == old(self).data_type(),
            r is Err ==> r == Err::<(), AggError>(AggError::TypeMismatch) && *final(self) == *old(self),
            r is Ok ==> final(self).data_type() == old(self).data_type() && final(self).cells()
                == old(self).cells().push(v.value()),
    {
        match (self, v) {
            (Column::Null(n), ScalarValue::Null) => {
                *n = *n + 1;
            },
            (Column::Boolean(c), ScalarValue::Boolean(x)) => {
                c.push(x);
            },
            (Column::Int8(c), ScalarValue::Int8(x)) => {
                c.push(x);
            },
            (Column::Int16(c), ScalarValue::Int16(x)) => {
                c.push(x);
            },
            (Column::Int32(c), ScalarValue::Int32(x)) => {
                c.push(x);
            },
            (Column::Int64(c), ScalarValue::Int64(x)) => {
                c.push(x);
            },
            (Column::UInt8(c), ScalarValue::UInt8(x)) => {
                c.push(x);
            },
            (Column::UInt16(c), ScalarValue::UInt16(x)) => {
                c.push(x);
            },
            (Column::UInt32(c), ScalarValue::UInt32(x)) => {
                c.push(x);
            },
            (Column::UInt64(c), ScalarValue::UInt64(x)) => {
                c.push(x);
            },
            (Column::Utf8(c), ScalarValue::Utf8(x)) => {
                c.push(x);
            },
            (Column::Date32(c), ScalarValue::Date32(x)) => {
                c.push(x);
            },
            (Column::Date64(c), ScalarValue::Date64(x)) => {
                c.push(x);
            },
            (Column::Decimal128(c, p, s), ScalarValue::Decimal128(x, q, t)) => {
                if *p != q || *s != t {
                    return Err(AggError::TypeMismatch);
                }
                c.push(x);
            },
            _ => {
                return Err(AggError::TypeMismatch);
            },
        }
        Ok(())
    }
}

} // verus!
