//! Extraction of a single named variant out of a tagged-union column.
//!
//! A tagged-union column stores, per row, a small integer discriminant (the
//! active variant's type id) plus either one row-aligned child array per
//! variant (sparse layout) or one compact child array per variant together
//! with a per-row offset into the selected child (dense layout).  The library
//! models such columns with plain values and verifies the projection "give me
//! this column as if it were a plain nullable column of variant X": every row
//! whose discriminant is not X becomes null.

pub mod builder;
pub mod column;
pub mod dense;
pub mod extract;
pub mod fields;
pub mod laws;
pub mod mask;
pub mod scalar;
pub mod sparse;
pub mod tag;
pub mod values;
