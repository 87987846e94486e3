//! An x86_64 Interrupt Descriptor Table for the SEV shim, with its entries and
//! their option bits: building entries, setting their options and filling the
//! 256 vectors.

pub mod bits;
pub mod addr;
pub mod entry;
pub mod options;
pub mod table;
