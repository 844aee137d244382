//! Unsigned integer vectors for texture sizes.

use vstd::prelude::*;

verus! {

/// A two-dimensional size in texels.
#[derive(Clone, Copy, Debug, PartialEq, Eq, Hash, Structural)]
pub struct UVec2 {
    pub x: u32,
    pub y: u32,
}

/// A three-dimensional size in texels.
#[derive(Clone, Copy, Debug, PartialEq, Eq, Hash, Structural)]
pub struct UVec3 {
    pub x: u32,
    pub y: u32,
    pub z: u32,
}

impl UVec2 {
    pub fn new(x: u32, y: u32) -> (v: Self)
        ensures
            v == (UVec2 { x, y }),
    {
        UVec2 { x, y }
    }
}

impl UVec3 {
    pub fn new(x: u32, y: u32, z: u32) -> (v: Self)
        ensures
            v == (UVec3 { x, y, z }),
    {
        UVec3 { x, y, z }
    }
}

} // verus!
