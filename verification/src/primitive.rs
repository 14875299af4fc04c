//! The kinds of the primitive number types.

use vstd::prelude::*;

verus! {

/// Whether an integer type has negative values.
#[derive(Clone, Copy, PartialEq, Eq, Debug, Hash, Structural)]
pub enum Signedness {
    Signed,
    Unsigned,
}

/// The width of an integer type.
#[derive(Clone, Copy, PartialEq, Eq, Debug, Hash, Structural)]
pub enum IntBitness {
    Xsize,
    X8,
    X16,
    X32,
    X64,
    X128,
}

/// The width of a binary floating-point type.
#[derive(Clone, Copy, PartialEq, Eq, Debug, Hash, Structural)]
pub enum FloatBitness {
    X32,
    X64,
}

/// An integer type, such as `i32` or `usize`.
#[derive(Clone, Copy, PartialEq, Eq, Debug, Hash, Structural)]
pub struct IntTy {
    pub signedness: Signedness,
    pub bitness: IntBitness,
}

/// A binary floating-point type, known by its width only.
#[derive(Clone, Copy, PartialEq, Eq, Debug, Hash, Structural)]
pub struct FloatTy {
    pub bitness: FloatBitness,
}

/// The kind of a number literal whose type has not been decided yet
/// (`Unknown`), or has (`Known`).
#[derive(Clone, Copy, PartialEq, Eq, Debug, Hash)]
pub enum Uncertain<T> {
    Unknown,
    Known(T),
}

} // verus!
