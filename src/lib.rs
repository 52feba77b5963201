//! A maximum aggregate over typed columns: per-group accumulators with
//! row-wise update, whole-column update, merging of partial states, and
//! saving into column builders, each stated against a model of the values.

pub mod accum;
pub mod column;
pub mod kernels;
pub mod laws;
pub mod order;
pub mod scalar;
