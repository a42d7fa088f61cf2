//! Logic gates built from a single NAND primitive: single bits and
//! eight-bit bytes.

pub mod bit;
pub mod byte;
