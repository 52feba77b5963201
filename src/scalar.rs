use vstd::prelude::*;
use vstd::utf8::encode_utf8;
use crate::order::{same_kind, Datum};

verus! {

/// The element type that an aggregate is declared over.
#[derive(Debug, Clone, PartialEq, Eq)]
pub enum ElementType {
    Null,
    Boolean,
    Int8,
    Int16,
    Int32,
    Int64,
    UInt8,
    UInt16,
    UInt32,
    UInt64,
    /// Fixed-precision decimal: precision and scale.
    Decimal128(u8, i8),
    Utf8,
    Date32,
    Date64,
    /// A type the maximum does not implement, by name.
    Unsupported(String),
}

impl ElementType {
    pub fn duplicate(&self) -> (r: ElementType)
        ensures
            r == *self,
    {
        match self {
            ElementType::Null => ElementType::Null,
            ElementType::Boolean => ElementType::Boolean,
            ElementType::Int8 => ElementType::Int8,
            ElementType::Int16 => ElementType::Int16,
            ElementType::Int32 => ElementType::Int32,
            ElementType::Int64 => ElementType::Int64,
            ElementType::UInt8 => ElementType::UInt8,
            ElementType::UInt16 => ElementType::UInt16,
            ElementType::UInt32 => ElementType::UInt32,
            ElementType::UInt64 => ElementType::UInt64,
            ElementType::Decimal128(p, s) => ElementType::Decimal128(*p, *s),
            ElementType::Utf8 => ElementType::Utf8,
            ElementType::Date32 => ElementType::Date32,
            ElementType::Date64 => ElementType::Date64,
            ElementType::Unsupported(n) => ElementType::Unsupported(n.clone()),
        }
    }

    /// Type equality, for a type that the maximum implements.
    pub fn same_as(&self, other: &ElementType) -> (r: bool)
        requires
            !(self is Unsupported),
        ensures
            r == (*self == *other),
    {
        match (self, other) {
            (ElementType::Null, ElementType::Null) => true,
            (ElementType::Boolean, ElementType::Boolean) => true,
            (ElementType::Int8, ElementType::Int8) => true,
            (ElementType::Int16, ElementType::Int16) => true,
            (ElementType::Int32, ElementType::Int32) => true,
            (ElementType::Int64, ElementType::Int64) => true,
            (ElementType::UInt8, ElementType::UInt8) => true,
            (ElementType::UInt16, ElementType::UInt16) => true,
            (ElementType::UInt32, ElementType::UInt32) => true,
            (ElementType::UInt64, ElementType::UInt64) => true,
            (ElementType::Decimal128(p, s), ElementType::Decimal128(q, t)) => *p == *q && *s == *t,
            (ElementType::Utf8, ElementType::Utf8) => true,
            (ElementType::Date32, ElementType::Date32) => true,
            (ElementType::Date64, ElementType::Date64) => true,
            _ => false,
        }
    }
}

/// The kind of value that a type holds, as a representative datum;
/// `None` for the types that hold no value at all.
pub open spec fn kind_of(t: ElementType) -> Option<Datum> {
    match t {
        ElementType::Null => None,
        ElementType::Unsupported(_) => None,
        ElementType::Boolean => Some(Datum::Bool(false)),
        ElementType::Utf8 => Some(Datum::Text(Seq::empty())),
        _ => Some(Datum::Int(0)),
    }
}

/// `o` is null or a value of the kind that `t` holds.
pub open spec fn fits(o: Option<Datum>, t: ElementType) -> bool {
    match o {
        None => true,
        Some(x) => kind_of(t) is Some && same_kind(x, kind_of(t)->0),
    }
}

pub open spec fn text_datum(s: String) -> Datum {
    Datum::Text(encode_utf8(s@))
}

/// A single value of a declared type; `None` in a variant is SQL null.
#[derive(Debug, Clone, PartialEq, Eq)]
pub enum ScalarValue {
    Null,
    Boolean(Option<bool>),
    Int8(Option<i8>),
    Int16(Option<i16>),
    Int32(Option<i32>),
    Int64(Option<i64>),
    UInt8(Option<u8>),
    UInt16(Option<u16>),
    UInt32(Option<u32>),
    UInt64(Option<u64>),
    /// Unscaled value, precision, scale.
    Decimal128(Option<i128>, u8, i8),
    Utf8(Option<String>),
    /// Days since the epoch.
    Date32(Option<i32>),
    /// Milliseconds since the epoch.
    Date64(Option<i64>),
    /// The (always null) value of a type the maximum does not implement.
    Unsupported(String),
}

impl ScalarValue {
    pub open spec fn data_type(self) -> ElementType {
        match self {
            ScalarValue::Null => ElementType::Null,
            ScalarValue::Boolean(_) => ElementType::Boolean,
            ScalarValue::Int8(_) => ElementType::Int8,
            ScalarValue::Int16(_) => ElementType::Int16,
            ScalarValue::Int32(_) => ElementType::Int32,
            ScalarValue::Int64(_) => ElementType::Int64,
            ScalarValue::UInt8(_) => ElementType::UInt8,
            ScalarValue::UInt16(_) => ElementType::UInt16,
            ScalarValue::UInt32(_) => ElementType::UInt32,
            ScalarValue::UInt64(_) => ElementType::UInt64,
            ScalarValue::Decimal128(_, p, s) => ElementType::Decimal128(p, s),
            ScalarValue::Utf8(_) => ElementType::Utf8,
            ScalarValue::Date32(_) => ElementType::Date32,
            ScalarValue::Date64(_) => ElementType::Date64,
            ScalarValue::Unsupported(n) => ElementType::Unsupported(n),
        }
    }

    /// The value held, `None` for null.
    pub open spec fn value(self) -> Option<Datum> {
        match self {
            ScalarValue::Null => None,
            ScalarValue::Boolean(v) => match v {
                Some(b) => Some(Datum::Bool(b)),
                None => None,
            },
            ScalarValue::Int8(v) => match v {
                Some(x) => Some(Datum::Int(x as int)),
                None => None,
            },
            ScalarValue::Int16(v) => match v {
                Some(x) => Some(Datum::Int(x as int)),
                None => None,
            },
            ScalarValue::Int32(v) => match v {
                Some(x) => Some(Datum::Int(x as int)),
                None => None,
            },
            ScalarValue::Int64(v) => match v {
                Some(x) => Some(Datum::Int(x as int)),
                None => None,
            },
            ScalarValue::UInt8(v) => match v {
                Some(x) => Some(Datum::Int(x as int)),
                None => None,
            },
            ScalarValue::UInt16(v) => match v {
                Some(x) => Some(Datum::Int(x as int)),
                None => None,
            },
            ScalarValue::UInt32(v) => match v {
                Some(x) => Some(Datum::Int(x as int)),
                None => None,
            },
            ScalarValue::UInt64(v) => match v {
                Some(x) => Some(Datum::Int(x as int)),
                None => None,
            },
            ScalarValue::Decimal128(v, _, _) => match v {
                Some(x) => Some(Datum::Int(x as int)),
                None => None,
            },
            ScalarValue::Utf8(v) => match v {
                Some(s) => Some(text_datum(s)),
                None => None,
            },
            ScalarValue::Date32(v) => match v {
                Some(x) => Some(Datum::Int(x as int)),
                None => None,
            },
            ScalarValue::Date64(v) => match v {
                Some(x) => Some(Datum::Int(x as int)),
                None => None,
            },
            ScalarValue::Unsupported(_) => None,
        }
    }

    /// Bytes of text held beyond the value's own fixed size.
    pub open spec fn heap_bytes(self) -> nat {
        match self {
            ScalarValue::Utf8(Some(s)) => encode_utf8(s@).len(),
            _ => 0,
        }
    }

    pub proof fn lemma_value_fits(self)
        ensures
            fits(self.value(), self.data_type()),
    {
    }

    /// The null value of a declared type.
    pub fn new_null(t: &ElementType) -> (r: ScalarValue)
        ensures
            r.data_type() == *t,
            r.value() is None,
            r.heap_bytes() == 0,
    {
        match t {
            ElementType::Null => ScalarValue::Null,
            ElementType::Boolean => ScalarValue::Boolean(None),
            ElementType::Int8 => ScalarValue::Int8(None),
            ElementType::Int16 => ScalarValue::Int16(None),
            ElementType::Int32 => ScalarValue::Int32(None),
            ElementType::Int64 => ScalarValue::Int64(None),
            ElementType::UInt8 => ScalarValue::UInt8(None),
            ElementType::UInt16 => ScalarValue::UInt16(None),
            ElementType::UInt32 => ScalarValue::UInt32(None),
            ElementType::UInt64 => ScalarValue::UInt64(None),
            ElementType::Decimal128(p, s) => ScalarValue::Decimal128(None, *p, *s),
            ElementType::Utf8 => ScalarValue::Utf8(None),
            ElementType::Date32 => ScalarValue::Date32(None),
            ElementType::Date64 => ScalarValue::Date64(None),
            ElementType::Unsupported(n) => ScalarValue::Unsupported(n.clone()),
        }
    }

    pub fn duplicate(&self) -> (r: ScalarValue)
        ensures
            r == *self,
    {
        match self {
            ScalarValue::Null => ScalarValue::Null,
            ScalarValue::Boolean(v) => ScalarValue::Boolean(*v),
            ScalarValue::Int8(v) => ScalarValue::Int8(*v),
            ScalarValue::Int16(v) => ScalarValue::Int16(*v),
            ScalarValue::Int32(v) => ScalarValue::Int32(*v),
            ScalarValue::Int64(v) => ScalarValue::Int64(*v),
            ScalarValue::UInt8(v) => ScalarValue::UInt8(*v),
            ScalarValue::UInt16(v) => ScalarValue::UInt16(*v),
            ScalarValue::UInt32(v) => ScalarValue::UInt32(*v),
            ScalarValue::UInt64(v) => ScalarValue::UInt64(*v),
            ScalarValue::Decimal128(v, p, s) => ScalarValue::Decimal128(*v, *p, *s),
            ScalarValue::Utf8(v) => ScalarValue::Utf8(
                match v {
                    Some(s) => Some(s.clone()),
                    None => None,
                },
            ),
            ScalarValue::Date32(v) => ScalarValue::Date32(*v),
            ScalarValue::Date64(v) => ScalarValue::Date64(*v),
            ScalarValue::Unsupported(n) => ScalarValue::Unsupported(n.clone()),
        }
    }

    pub fn get_datatype(&self) -> (r: ElementType)
        ensures
            r == self.data_type(),
    {
        match self {
            ScalarValue::Null => ElementType::Null,
            ScalarValue::Boolean(_) => ElementType::Boolean,
            ScalarValue::Int8(_) => ElementType::Int8,
            ScalarValue::Int16(_) => ElementType::Int16,
            ScalarValue::Int32(_) => ElementType::Int32,
            ScalarValue::Int64(_) => ElementType::Int64,
            ScalarValue::UInt8(_) => ElementType::UInt8,
            ScalarValue::UInt16(_) => ElementType::UInt16,
            ScalarValue::UInt32(_) => ElementType::UInt32,
            ScalarValue::UInt64(_) => ElementType::UInt64,
            ScalarValue::Decimal128(_, p, s) => ElementType::Decimal128(*p, *s),
            ScalarValue::Utf8(_) => ElementType::Utf8,
            ScalarValue::Date32(_) => ElementType::Date32,
            ScalarValue::Date64(_) => ElementType::Date64,
            ScalarValue::Unsupported(n) => ElementType::Unsupported(n.clone()),
        }
    }

    pub fn is_null(&self) -> (r: bool)
        ensures
            r == (self.value() is None),
    {
        match self {
            ScalarValue::Null => true,
            ScalarValue::Boolean(v) => v.is_none(),
            ScalarValue::Int8(v) => v.is_none(),
            ScalarValue::Int16(v) => v.is_none(),
            ScalarValue::Int32(v) => v.is_none(),
            ScalarValue::Int64(v) => v.is_none(),
            ScalarValue::UInt8(v) => v.is_none(),
            ScalarValue::UInt16(v) => v.is_none(),
            ScalarValue::UInt32(v) => v.is_none(),
            ScalarValue::UInt64(v) => v.is_none(),
            ScalarValue::Decimal128(v, _, _) => v.is_none(),
            ScalarValue::Utf8(v) => v.is_none(),
            ScalarValue::Date32(v) => v.is_none(),
            ScalarValue::Date64(v) => v.is_none(),
            ScalarValue::Unsupported(_) => true,
        }
    }

    /// Memory held by the value: its fixed size plus the bytes of any text,
    /// saturating at `usize::MAX`.
    pub open spec fn spec_size(self) -> int {
        if vstd::layout::size_of::<ScalarValue>() + self.heap_bytes() > usize::MAX {
            usize::MAX as int
        } else {
            (vstd::layout::size_of::<ScalarValue>() + self.heap_bytes()) as int
        }
    }

    pub fn size(&self) -> (r: usize)
        ensures
            r == self.spec_size(),
    {
        let base = core::mem::size_of::<ScalarValue>();
        match self {
            ScalarValue::Utf8(Some(s)) => {
                let t = s.as_str();
                let n = t.as_bytes().len();
                base.saturating_add(n)
            },
            _ => base,
        }
    }
}

} // verus!

verus! {

/// Why an update or merge was refused.
#[derive(Debug, Clone, PartialEq, Eq)]
pub enum AggError {
    /// The declared type is one the maximum does not implement; carries its name.
    Unsupported(String),
    /// A column or value of another type than the accumulator's.
    TypeMismatch,
}

} // verus!
