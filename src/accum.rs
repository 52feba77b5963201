use vstd::prelude::*;
use crate::column::Column;
use crate::kernels::{
    max_bool, max_i128, max_i16, max_i32, max_i64, max_i8, max_text, max_u16, max_u32, max_u64,
    max_u8,
};
use crate::order::{bytes_lt_exec, column_max, lemma_column_max_all_null, max_opt};
use crate::scalar::{AggError, ElementType, ScalarValue};

verus! {

/// The refusal, if any, of combining a value or column of type `c` into an
/// accumulator declared with type `t`: an unsupported declared type first,
/// then any difference of types.
pub open spec fn type_error(t: ElementType, c: ElementType) -> Option<AggError> {
    match t {
        ElementType::Unsupported(n) => Some(AggError::Unsupported(n)),
        _ => if t == c {
            None
        } else {
            Some(AggError::TypeMismatch)
        },
    }
}

fn check_types(t: &ElementType, c: &ElementType) -> (r: Result<(), AggError>)
    ensures
        match type_error(*t, *c) {
            Some(e) => r == Err::<(), AggError>(e),
            None => r is Ok,
        },
{
    match t {
        ElementType::Unsupported(n) => Err(AggError::Unsupported(n.clone())),
        _ => if t.same_as(c) {
            Ok(())
        } else {
            Err(AggError::TypeMismatch)
        },
    }
}

/// The larger of two values of one type; a null gives way to any value, and
/// `cur` is kept unless `new` is strictly larger.
pub fn larger(cur: ScalarValue, new: ScalarValue) -> (r: ScalarValue)
    requires
        cur.data_type() == new.data_type(),
    ensures
        r.data_type() == cur.data_type(),
        r.value() == max_opt(cur.value(), new.value()),
{
    match (cur, new) {
        (ScalarValue::Boolean(a), ScalarValue::Boolean(b)) => ScalarValue::Boolean(
            match (a, b) {
                (Some(x), Some(y)) => Some(x || y),
                (None, y) => y,
                (x, None) => x,
            },
        ),
        (ScalarValue::Int8(a), ScalarValue::Int8(b)) => ScalarValue::Int8(
            match (a, b) {
                (Some(x), Some(y)) => if x < y {
                    Some(y)
                } else {
                    Some(x)
                },
                (None, y) => y,
                (x, None) => x,
            },
        ),
        (ScalarValue::Int16(a), ScalarValue::Int16(b)) => ScalarValue::Int16(
            match (a, b) {
                (Some(x), Some(y)) => if x < y {
                    Some(y)
                } else {
                    Some(x)
                },
                (None, y) => y,
                (x, None) => x,
            },
        ),
        (ScalarValue::Int32(a), ScalarValue::Int32(b)) => ScalarValue::Int32(
            match (a, b) {
                (Some(x), Some(y)) => if x < y {
                    Some(y)
                } else {
                    Some(x)
                },
                (None, y) => y,
                (x, None) => x,
            },
        ),
        (ScalarValue::Int64(a), ScalarValue::Int64(b)) => ScalarValue::Int64(
            match (a, b) {
                (Some(x), Some(y)) => if x < y {
                    Some(y)
                } else {
                    Some(x)
                },
                (None, y) => y,
                (x, None) => x,
            },
        ),
        (ScalarValue::UInt8(a), ScalarValue::UInt8(b)) => ScalarValue::UInt8(
            match (a, b) {
                (Some(x), Some(y)) => if x < y {
                    Some(y)
                } else {
                    Some(x)
                },
                (None, y) => y,
                (x, None) => x,
            },
        ),
        (ScalarValue::UInt16(a), ScalarValue::UInt16(b)) => ScalarValue::UInt16(
            match (a, b) {
                (Some(x), Some(y)) => if x < y {
                    Some(y)
                } else {
                    Some(x)
                },
                (None, y) => y,
                (x, None) => x,
            },
        ),
        (ScalarValue::UInt32(a), ScalarValue::UInt32(b)) => ScalarValue::UInt32(
            match (a, b) {
                (Some(x), Some(y)) => if x < y {
                    Some(y)
                } else {
                    Some(x)
                },
                (None, y) => y,
                (x, None) => x,
            },
        ),
        (ScalarValue::UInt64(a), ScalarValue::UInt64(b)) => ScalarValue::UInt64(
            match (a, b) {
                (Some(x), Some(y)) => if x < y {
                    Some(y)
                } else {
                    Some(x)
                },
                (None, y) => y,
                (x, None) => x,
            },
        ),
        (ScalarValue::Date32(a), ScalarValue::Date32(b)) => ScalarValue::Date32(
            match (a, b) {
                (Some(x), Some(y)) => if x < y {
                    Some(y)
                } else {
                    Some(x)
                },
                (None, y) => y,
                (x, None) => x,
            },
        ),
        (ScalarValue::Date64(a), ScalarValue::Date64(b)) => ScalarValue::Date64(
            match (a, b) {
                (Some(x), Some(y)) => if x < y {
                    Some(y)
                } else {
                    Some(x)
                },
                (None, y) => y,
                (x, None) => x,
            },
        ),
        (ScalarValue::Decimal128(a, p, s), ScalarValue::Decimal128(b, _, _)) => ScalarValue::Decimal128(
            match (a, b) {
                (Some(x), Some(y)) => if x < y {
                    Some(y)
                } else {
                    Some(x)
                },
                (None, y) => y,
                (x, None) => x,
            },
            p,
            s,
        ),
        (ScalarValue::Utf8(a), ScalarValue::Utf8(b)) => ScalarValue::Utf8(
            match (a, b) {
                (Some(x), Some(y)) => if bytes_lt_exec(x.as_str().as_bytes(), y.as_str().as_bytes()) {
                    Some(y)
                } else {
                    Some(x)
                },
                (None, y) => y,
                (x, None) => x,
            },
        ),
        (c, _) => c,
    }
}

/// The column-wide maximum of a column, as a value of the column's type.
pub fn column_max_value(values: &Column) -> (r: ScalarValue)
    ensures
        r.data_type() == values.data_type(),
        r.value() == column_max(values.cells()),
{
    match values {
        Column::Null(_) => {
            proof {
                lemma_column_max_all_null(values.cells());
            }
            ScalarValue::Null
        },
        Column::Boolean(v) => ScalarValue::Boolean(max_bool(v)),
            Column::Int8(v) => ScalarValue::Int8(max_i8(v)),
            Column::Int16(v) => ScalarValue::Int16(max_i16(v)),
            Column::Int32(v) => ScalarValue::Int32(max_i32(v)),
            Column::Int64(v) => ScalarValue::Int64(max_i64(v)),
            Column::UInt8(v) => ScalarValue::UInt8(max_u8(v)),
            Column::UInt16(v) => ScalarValue::UInt16(max_u16(v)),
            Column::UInt32(v) => ScalarValue::UInt32(max_u32(v)),
            Column::UInt64(v) => ScalarValue::UInt64(max_u64(v)),
            Column::Date32(v) => ScalarValue::Date32(max_i32(v)),
            Column::Date64(v) => ScalarValue::Date64(max_i64(v)),
        Column::Decimal128(v, p, s) => ScalarValue::Decimal128(max_i128(v), *p, *s),
        Column::Utf8(v) => ScalarValue::Utf8(max_text(v)),
    }
}

/// The running maximum of one group.
#[derive(Debug, Clone, PartialEq, Eq)]
pub struct AggMaxAccum {
    /// The largest value seen so far, null while none has been seen; always
    /// of the type the accumulator was created with.
    pub partial: ScalarValue,
}

impl AggMaxAccum {
    /// A fresh accumulator of a type: no value seen.
    pub fn new(t: &ElementType) -> (r: AggMaxAccum)
        ensures
            r.partial.data_type() == *t,
            r.partial.value() is None,
    {
        AggMaxAccum { partial: ScalarValue::new_null(t) }
    }

    /// Memory held by the current value.
    pub fn mem_size(&self) -> (r: usize)
        ensures
            r == self.partial.spec_size(),
    {
        self.partial.size()
    }

    fn fold_in(&mut self, new: ScalarValue)
        requires
            old(self).partial.data_type() == new.data_type(),
        ensures
            final(self).partial.data_type() == old(self).partial.data_type(),
            final(self).partial.value() == max_opt(old(self).partial.value(), new.value()),
    {
        let mut cur = ScalarValue::Null;
        core::mem::swap(&mut cur, &mut self.partial);
        self.partial = larger(cur, new);
    }

    /// Replaces the state by the partial state saved at `row_idx` of `values`.
    pub fn load(&mut self, values: &Column, row_idx: usize) -> (r: Result<(), AggError>)
        requires
            row_idx < values.cells().len(),
        ensures
            match type_error(old(self).partial.data_type(), values.data_type()) {
                Some(e) => r == Err::<(), AggError>(e) && *final(self) == *old(self),
                None => r is Ok && final(self).partial.data_type() == old(self).partial.data_type()
                    && final(self).partial.value() == values.cells()[row_idx as int],
            },
    {
        let t = self.partial.get_datatype();
        let c = values.get_datatype();
        match check_types(&t, &c) {
            Err(e) => Err(e),
            Ok(()) => {
                self.partial = values.get(row_idx);
                Ok(())
            },
        }
    }

    /// Appends the partial state (the value, or null) to a builder.
    pub fn save(&self, builder: &mut Column) -> (r: Result<(), AggError>)
        requires
            old(builder).cells().len() < usize::MAX,
        ensures
            r is Ok <==> self.partial.data_type() == old(builder).data_type(),
            r is Err ==> r == Err::<(), AggError>(AggError::TypeMismatch) && *final(builder)
                == *old(builder),
            r is Ok ==> final(builder).data_type() == old(builder).data_type() && final(builder).cells() == old(builder).cells().push(self.partial.value()),
    {
        builder.push(self.partial.duplicate())
    }

    /// Appends the final result to a builder; for the maximum it is the
    /// partial state itself.
    pub fn save_final(&self, builder: &mut Column) -> (r: Result<(), AggError>)
        requires
            old(builder).cells().len() < usize::MAX,
        ensures
            r is Ok <==> self.partial.data_type() == old(builder).data_type(),
            r is Err ==> r == Err::<(), AggError>(AggError::TypeMismatch) && *final(builder)
                == *old(builder),
            r is Ok ==> final(builder).data_type() == old(builder).data_type() && final(builder).cells() == old(builder).cells().push(self.partial.value()),
    {
        builder.push(self.partial.duplicate())
    }

    /// Row-wise update: takes in the cell at `row_idx` unless it is null.
    pub fn partial_update(&mut self, values: &Column, row_idx: usize) -> (r: Result<(), AggError>)
        requires
            row_idx < values.cells().len(),
        ensures
            match type_error(old(self).partial.data_type(), values.data_type()) {
                Some(e) => r == Err::<(), AggError>(e) && *final(self) == *old(self),
                None => r is Ok && final(self).partial.data_type() == old(self).partial.data_type()
                    && final(self).partial.value() == max_opt(
                    old(self).partial.value(),
                    values.cells()[row_idx as int],
                ),
            },
    {
        let t = self.partial.get_datatype();
        let c = values.get_datatype();
        match check_types(&t, &c) {
            Err(e) => Err(e),
            Ok(()) => {
                let v = values.get(row_idx);
                self.fold_in(v);
                Ok(())
            },
        }
    }

    /// Whole-column update: takes in the column's maximum over its valid cells.
    pub fn partial_update_all(&mut self, values: &Column) -> (r: Result<(), AggError>)
        ensures
            match type_error(old(self).partial.data_type(), values.data_type()) {
                Some(e) => r == Err::<(), AggError>(e) && *final(self) == *old(self),
                None => r is Ok && final(self).partial.data_type() == old(self).partial.data_type()
                    && final(self).partial.value() == max_opt(
                    old(self).partial.value(),
                    column_max(values.cells()),
                ),
            },
    {
        let t = self.partial.get_datatype();
        let c = values.get_datatype();
        match check_types(&t, &c) {
            Err(e) => Err(e),
            Ok(()) => {
                let m = column_max_value(values);
                self.fold_in(m);
                Ok(())
            },
        }
    }

    /// Merges another accumulator's state into this one.
    pub fn partial_merge(&mut self, another: AggMaxAccum) -> (r: Result<(), AggError>)
        ensures
            match type_error(old(self).partial.data_type(), another.partial.data_type()) {
                Some(e) => r == Err::<(), AggError>(e) && *final(self) == *old(self),
                None => r is Ok && final(self).partial.data_type() == old(self).partial.data_type()
                    && final(self).partial.value() == max_opt(
                    old(self).partial.value(),
                    another.partial.value(),
                ),
            },
    {
        self.partial_merge_scalar(another.partial)
    }

    /// Merges the partial state saved at `row_idx` of `values` into this one.
    pub fn partial_merge_from_array(&mut self, values: &Column, row_idx: usize) -> (r: Result<
        (),
        AggError,
    >)
        requires
            row_idx < values.cells().len(),
        ensures
            match type_error(old(self).partial.data_type(), values.data_type()) {
                Some(e) => r == Err::<(), AggError>(e) && *final(self) == *old(self),
                None => r is Ok && final(self).partial.data_type() == old(self).partial.data_type()
                    && final(self).partial.value() == max_opt(
                    old(self).partial.value(),
                    values.cells()[row_idx as int],
                ),
            },
    {
        let t = self.partial.get_datatype();
        let mut saved = AggMaxAccum::new(&t);
        match saved.load(values, row_idx) {
            Err(e) => Err(e),
            Ok(()) => self.partial_merge_scalar(saved.partial),
        }
    }

    /// Merges a value into this state: a null changes nothing, a value is
    /// taken where none is held or where it is strictly larger.
    pub fn partial_merge_scalar(&mut self, another_value: ScalarValue) -> (r: Result<(), AggError>)
        ensures
            match type_error(old(self).partial.data_type(), another_value.data_type()) {
                Some(e) => r == Err::<(), AggError>(e) && *final(self) == *old(self),
                None => r is Ok && final(self).partial.data_type() == old(self).partial.data_type()
                    && final(self).partial.value() == max_opt(
                    old(self).partial.value(),
                    another_value.value(),
                ),
            },
    {
        let t = self.partial.get_datatype();
        let c = another_value.get_datatype();
        match check_types(&t, &c) {
            Err(e) => Err(e),
            Ok(()) => {
                self.fold_in(another_value);
                Ok(())
            },
        }
    }
}

/// A named, typed column of an aggregate's saved partial state.
#[derive(Debug, Clone, PartialEq, Eq)]
pub struct Field {
    pub name: String,
    pub data_type: ElementType,
    pub nullable: bool,
}

/// The maximum aggregate over one child expression of type `E`.
pub struct AggMax<E> {
    child: E,
    data_type: ElementType,
    accum_fields: Vec<Field>,
}

impl<E> AggMax<E> {
    pub closed spec fn child_expr(&self) -> E {
        self.child
    }

    pub closed spec fn declared_type(&self) -> ElementType {
        self.data_type
    }

    pub closed spec fn fields(&self) -> Seq<Field> {
        self.accum_fields@
    }

    /// A maximum over `child`, declared with type `data_type`; its partial
    /// state is one nullable field named "max" of the same type.
    pub fn try_new(child: E, data_type: ElementType) -> (r: Result<Self, AggError>)
        ensures
            r is Ok,
            r is Ok ==> r->Ok_0.child_expr() == child && r->Ok_0.declared_type() == data_type
                && r->Ok_0.fields().len() == 1 && r->Ok_0.fields()[0].name@ == "max"@
                && r->Ok_0.fields()[0].data_type == data_type && r->Ok_0.fields()[0].nullable,
    {
        let field = Field { name: "max".to_owned(), data_type: data_type.duplicate(), nullable: true };
        let accum_fields = vec![field];
        Ok(AggMax { child, data_type, accum_fields })
    }

    pub fn child(&self) -> (r: &E)
        ensures
            *r == self.child_expr(),
    {
        &self.child
    }

    pub fn data_type(&self) -> (r: &ElementType)
        ensures
            *r == self.declared_type(),
    {
        &self.data_type
    }

    /// An empty group has no maximum, so the result is always nullable.
    pub fn nullable(&self) -> (r: bool)
        ensures
            r,
    {
        true
    }

    pub fn accum_fields(&self) -> (r: &Vec<Field>)
        ensures
            r@ == self.fields(),
    {
        &self.accum_fields
    }

    /// A fresh accumulator of the declared type, holding no value.
    pub fn create_accum(&self) -> (r: AggMaxAccum)
        ensures
            r.partial.data_type() == self.declared_type(),
            r.partial.value() is None,
    {
        AggMaxAccum::new(&self.data_type)
    }
}

} // verus!
