//! Plain carriers for the numbers exchanged with the engine.
//!
//! The engine works on IEEE 754 numbers. This crate never computes with them:
//! it hands them through. They are therefore held as their raw encodings, a
//! `u32` for a single-precision and a `u64` for a double-precision number, as
//! `to_bits` gives them and `from_bits` reads them. Every bit pattern is
//! accepted, so whatever the caller supplies reaches the engine unchanged.

use crate::elements::StyleVarKind;
use vstd::prelude::*;

verus! {

/// A color as four single-precision encodings, the engine's `ImVec4`.
/// Components are meant to lie between no intensity and full intensity, which
/// is not checked here.
#[derive(Clone, Copy, Debug, PartialEq, Eq)]
pub struct ColorBits {
    pub red: u32,
    pub green: u32,
    pub blue: u32,
    pub alpha: u32,
}

/// A pair of single-precision encodings, the engine's `ImVec2`: a position in
/// pixels, or the value of a two-component style variable.
#[derive(Clone, Copy, Debug, PartialEq, Eq)]
pub struct Vec2Bits {
    pub x: u32,
    pub y: u32,
}

/// A position in plot coordinates as two double-precision encodings, the
/// engine's `ImPlotPoint`.
#[derive(Clone, Copy, Debug, PartialEq, Eq)]
pub struct PointBits {
    pub x: u64,
    pub y: u64,
}

/// A range along one axis as two double-precision encodings, the engine's
/// `ImPlotRange`.
#[derive(Clone, Copy, Debug, PartialEq, Eq)]
pub struct RangeBits {
    pub min: u64,
    pub max: u64,
}

/// The limits of a plot along both axes, the engine's `ImPlotLimits`.
#[derive(Clone, Copy, Debug, PartialEq, Eq)]
pub struct LimitsBits {
    pub x: RangeBits,
    pub y: RangeBits,
}

/// The value of a style variable, in one of the three shapes the engine knows.
#[derive(Clone, Copy, Debug, PartialEq, Eq)]
pub enum StyleValue {
    /// A single-precision encoding.
    Float(u32),
    /// An integer, such as a marker code.
    Int(i32),
    /// Two single-precision encodings.
    Vec2(Vec2Bits),
}

impl Vec2Bits {
    /// Both components zero, which is also the encoding of `(0.0, 0.0)`.
    pub open spec fn zero() -> Vec2Bits {
        Vec2Bits { x: 0, y: 0 }
    }

    /// The pair the engine is given to write a pixel position into.
    pub fn zeroed() -> (out: Vec2Bits)
        ensures
            out == Vec2Bits::zero(),
    {
        Vec2Bits { x: 0, y: 0 }
    }
}

impl PointBits {
    /// Both coordinates zero, which is also the encoding of `(0.0, 0.0)`.
    pub open spec fn zero() -> PointBits {
        PointBits { x: 0, y: 0 }
    }

    /// The point the engine is given to write a plot position into.
    pub fn zeroed() -> (out: PointBits)
        ensures
            out == PointBits::zero(),
    {
        PointBits { x: 0, y: 0 }
    }
}

impl LimitsBits {
    /// All four bounds zero, which is also the encoding of empty limits at the
    /// origin.
    pub open spec fn zero() -> LimitsBits {
        LimitsBits { x: RangeBits { min: 0, max: 0 }, y: RangeBits { min: 0, max: 0 } }
    }

    /// The limits the engine is given to write into.
    pub fn zeroed() -> (out: LimitsBits)
        ensures
            out == LimitsBits::zero(),
    {
        LimitsBits { x: RangeBits { min: 0, max: 0 }, y: RangeBits { min: 0, max: 0 } }
    }
}

impl StyleValue {
    /// The shape of this value.
    pub open spec fn shape(self) -> StyleVarKind {
        match self {
            StyleValue::Float(_) => StyleVarKind::Float,
            StyleValue::Int(_) => StyleVarKind::Int,
            StyleValue::Vec2(_) => StyleVarKind::Vec2,
        }
    }

    /// The shape of this value.
    pub fn kind(&self) -> (kind: StyleVarKind)
        ensures
            kind == self.shape(),
    {
        match self {
            StyleValue::Float(_) => StyleVarKind::Float,
            StyleValue::Int(_) => StyleVarKind::Int,
            StyleValue::Vec2(_) => StyleVarKind::Vec2,
        }
    }
}

} // verus!
