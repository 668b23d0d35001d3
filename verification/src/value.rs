//! The untyped 64-bit value cell.
//!
//! A register holds a bare 64-bit bit pattern; the instruction that reads it
//! knows statically which typed view to take.  Writes of 32-bit values leave
//! the upper 32 bits zero; float values are carried by their IEEE-754 bit
//! patterns.

use vstd::prelude::*;

verus! {

/// An untyped 64-bit value cell with typed read and write views.
#[derive(Debug, Copy, Clone, PartialEq, Eq, Structural)]
pub struct UntypedVal {
    /// The raw bit pattern of the cell.
    pub bits: u64,
}

impl UntypedVal {
    /// Creates a cell from a `u64` value.
    pub fn from_u64(value: u64) -> (r: Self)
        ensures
            r.bits == value,
    {
        UntypedVal { bits: value }
    }

    /// Creates a cell from an `i64` value, reinterpreting its bits.
    pub fn from_i64(value: i64) -> (r: Self)
        ensures
            r.bits == value as u64,
    {
        UntypedVal { bits: value as u64 }
    }

    /// Creates a cell from a `u32` value; the upper 32 bits are zero.
    pub fn from_u32(value: u32) -> (r: Self)
        ensures
            r.bits == value as u64,
    {
        UntypedVal { bits: value as u64 }
    }

    /// Creates a cell from an `i32` value; the upper 32 bits are zero.
    pub fn from_i32(value: i32) -> (r: Self)
        ensures
            r.bits == value as u32 as u64,
    {
        UntypedVal { bits: value as u32 as u64 }
    }

    /// Reads the cell as a `u64` value.
    pub fn as_u64(self) -> (r: u64)
        ensures
            r == self.bits,
    {
        self.bits
    }

    /// Reads the cell as an `i64` value, reinterpreting its bits.
    pub fn as_i64(self) -> (r: i64)
        ensures
            r == self.bits as i64,
    {
        self.bits as i64
    }

    /// Reads the low 32 bits of the cell as a `u32` value.
    pub fn as_u32(self) -> (r: u32)
        ensures
            r == self.bits as u32,
    {
        self.bits as u32
    }

    /// Reads the low 32 bits of the cell as an `i32` value.
    pub fn as_i32(self) -> (r: i32)
        ensures
            r == self.bits as i32,
    {
        self.bits as i32
    }
}

} // verus!
