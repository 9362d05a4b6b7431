//! Three-component vector values as they cross the GPU boundary.
//!
//! The renderer never inspects a component numerically on the host side: it
//! stores components, compares them, and uploads them to the GPU verbatim.
//! Each component is therefore carried as the 32-bit pattern of an IEEE-754
//! single-precision value, which lets every statement about a vector be exact
//! (bit-for-bit) rather than approximate. Host-side floating-point arithmetic
//! on these components lives outside the verified library.

use vstd::prelude::*;

verus! {

/// A three-component vector; each field holds the bit pattern of one
/// IEEE-754 single-precision component.
///
/// The all-zero pattern is the encoding of positive zero, so a `Vec3` with
/// all fields `0` denotes the additive identity (0, 0, 0).
#[derive(Clone, Copy, Debug, PartialEq, Eq, Structural)]
pub struct Vec3 {
    /// Bit pattern of the first component.
    pub x: u32,
    /// Bit pattern of the second component.
    pub y: u32,
    /// Bit pattern of the third component.
    pub z: u32,
}

impl Vec3 {
    /// Builds a vector from the bit patterns of its three components.
    pub fn new(x: u32, y: u32, z: u32) -> (v: Vec3)
        ensures
            v == (Vec3 { x, y, z }),
    {
        Vec3 { x, y, z }
    }

    /// Builds a vector whose three components share one bit pattern.
    pub fn all(v: u32) -> (r: Vec3)
        ensures
            r == (Vec3 { x: v, y: v, z: v }),
    {
        Vec3 { x: v, y: v, z: v }
    }

    /// The additive identity (0, 0, 0); positive zero encodes as pattern 0.
    pub fn zero() -> (r: Vec3)
        ensures
            r == (Vec3 { x: 0, y: 0, z: 0 }),
    {
        Vec3 { x: 0, y: 0, z: 0 }
    }

    /// Bit pattern of the first component.
    pub fn x(&self) -> (r: u32)
        ensures
            r == self.x,
    {
        self.x
    }

    /// Bit pattern of the second component.
    pub fn y(&self) -> (r: u32)
        ensures
            r == self.y,
    {
        self.y
    }

    /// Bit pattern of the third component.
    pub fn z(&self) -> (r: u32)
        ensures
            r == self.z,
    {
        self.z
    }
}

impl Default for Vec3 {
    /// The default vector is the additive identity.
    fn default() -> (r: Vec3)
        ensures
            r == (Vec3 { x: 0, y: 0, z: 0 }),
    {
        Vec3 { x: 0, y: 0, z: 0 }
    }
}

} // verus!
