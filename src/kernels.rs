//! Column-wide maxima computed by arrow's aggregate kernels.
use vstd::prelude::*;
use arrow::array::{
    BooleanArray, Decimal128Array, Int16Array, Int32Array, Int64Array, Int8Array,
    LargeStringArray, UInt16Array, UInt32Array, UInt64Array, UInt8Array,
};
use crate::column::{
    bool_cell, bool_cells, i128_cell, i128_cells, i16_cell, i16_cells, i32_cell, i32_cells,
    i64_cell, i64_cells, i8_cell, i8_cells, text_cell, text_cells, u16_cell, u16_cells, u32_cell,
    u32_cells, u64_cell, u64_cells, u8_cell, u8_cells,
};
use crate::order::column_max;

verus! {

/// Relies on arrow::compute::max_boolean: `None` when every cell is null,
/// else whether some valid cell is true.
#[verifier::external_body]
pub(crate) fn max_bool(v: &Vec<Option<bool>>) -> (r: Option<bool>)
    ensures
        bool_cell(r) == column_max(bool_cells(v@)),
{
    arrow::compute::max_boolean(&BooleanArray::from(v.clone()))
}

/// Relies on arrow::compute::max over Int8Array: the largest valid cell,
/// `None` when every cell is null.
#[verifier::external_body]
pub(crate) fn max_i8(v: &Vec<Option<i8>>) -> (r: Option<i8>)
    ensures
        i8_cell(r) == column_max(i8_cells(v@)),
{
    arrow::compute::max(&Int8Array::from(v.clone()))
}

/// Relies on arrow::compute::max over Int16Array: the largest valid cell,
/// `None` when every cell is null.
#[verifier::external_body]
pub(crate) fn max_i16(v: &Vec<Option<i16>>) -> (r: Option<i16>)
    ensures
        i16_cell(r) == column_max(i16_cells(v@)),
{
    arrow::compute::max(&Int16Array::from(v.clone()))
}

/// Relies on arrow::compute::max over Int32Array (also used for day
/// numbers): the largest valid cell, `None` when every cell is null.
#[verifier::external_body]
pub(crate) fn max_i32(v: &Vec<Option<i32>>) -> (r: Option<i32>)
    ensures
        i32_cell(r) == column_max(i32_cells(v@)),
{
    arrow::compute::max(&Int32Array::from(v.clone()))
}

/// Relies on arrow::compute::max over Int64Array (also used for
/// millisecond timestamps): the largest valid cell, `None` when every cell is null.
#[verifier::external_body]
pub(crate) fn max_i64(v: &Vec<Option<i64>>) -> (r: Option<i64>)
    ensures
        i64_cell(r) == column_max(i64_cells(v@)),
{
    arrow::compute::max(&Int64Array::from(v.clone()))
}

/// Relies on arrow::compute::max over Decimal128Array: the largest valid
/// unscaled value, `None` when every cell is null.
#[verifier::external_body]
pub(crate) fn max_i128(v: &Vec<Option<i128>>) -> (r: Option<i128>)
    ensures
        i128_cell(r) == column_max(i128_cells(v@)),
{
    arrow::compute::max(&Decimal128Array::from(v.clone()))
}

/// Relies on arrow::compute::max over UInt8Array: the largest valid cell,
/// `None` when every cell is null.
#[verifier::external_body]
pub(crate) fn max_u8(v: &Vec<Option<u8>>) -> (r: Option<u8>)
    ensures
        u8_cell(r) == column_max(u8_cells(v@)),
{
    arrow::compute::max(&UInt8Array::from(v.clone()))
}

/// Relies on arrow::compute::max over UInt16Array: the largest valid cell,
/// `None` when every cell is null.
#[verifier::external_body]
pub(crate) fn max_u16(v: &Vec<Option<u16>>) -> (r: Option<u16>)
    ensures
        u16_cell(r) == column_max(u16_cells(v@)),
{
    arrow::compute::max(&UInt16Array::from(v.clone()))
}

/// Relies on arrow::compute::max over UInt32Array: the largest valid cell,
/// `None` when every cell is null.
#[verifier::external_body]
pub(crate) fn max_u32(v: &Vec<Option<u32>>) -> (r: Option<u32>)
    ensures
        u32_cell(r) == column_max(u32_cells(v@)),
{
    arrow::compute::max(&UInt32Array::from(v.clone()))
}

/// Relies on arrow::compute::max over UInt64Array: the largest valid cell,
/// `None` when every cell is null.
#[verifier::external_body]
pub(crate) fn max_u64(v: &Vec<Option<u64>>) -> (r: Option<u64>)
    ensures
        u64_cell(r) == column_max(u64_cells(v@)),
{
    arrow::compute::max(&UInt64Array::from(v.clone()))
}

/// Relies on arrow::compute::max_string: the byte-lexicographically largest
/// valid cell, `None` when every cell is null.
#[verifier::external_body]
pub(crate) fn max_text(v: &Vec<Option<String>>) -> (r: Option<String>)
    ensures
        text_cell(r) == column_max(text_cells(v@)),
{
    arrow::compute::max_string(&LargeStringArray::from(v.clone())).map(str::to_owned)
}

} // verus!
