//! Columnar component stores: densely packed, row-aligned sequences of field
//! values, one column per field, plus row-wise bulk combinators.

pub mod comp1;
pub mod comp2;

pub use comp1::Comp1;
pub use comp2::Comp2;
