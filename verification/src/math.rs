//! Three-component vectors.

use vstd::prelude::*;

verus! {

/// A position in space. Each field holds the bit pattern of one
/// single-precision coordinate.
#[derive(Clone, Copy, Debug, PartialEq, Eq, Structural)]
pub struct Vec3 {
    pub x: u32,
    pub y: u32,
    pub z: u32,
}

impl Vec3 {
    /// The `k`-th coordinate, counted from zero.
    pub open spec fn component(self, k: int) -> u32 {
        if k == 0 {
            self.x
        } else if k == 1 {
            self.y
        } else {
            self.z
        }
    }

    /// The coordinates in memory order.
    pub open spec fn words(self) -> Seq<u32> {
        seq![self.x, self.y, self.z]
    }

    pub fn new(x: u32, y: u32, z: u32) -> (v: Vec3)
        ensures
            v == (Vec3 { x, y, z }),
    {
        Vec3 { x, y, z }
    }
}

} // verus!
