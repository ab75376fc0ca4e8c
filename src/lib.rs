//! Reference fixture generator for a text shaping and line-layout pipeline:
//! the case matrix, the offset translation, the font catalog and the
//! canonical tagged record format.

pub mod decimal;
pub mod offsets;
pub mod catalog;
pub mod matrix;
pub mod records;
pub mod fixture;
