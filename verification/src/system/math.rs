//! The host's vector types.

use vstd::prelude::*;

verus! {

/// Three single-precision numbers. Each is carried as its IEEE 754 bit
/// pattern, which is what lies in the host's memory: nothing here computes
/// with them.
#[derive(Clone, Copy, Debug, PartialEq, Eq, Structural)]
pub struct Vec3f {
    pub x: u32,
    pub y: u32,
    pub z: u32,
}

/// Three signed 16-bit numbers: the host's angles.
#[derive(Clone, Copy, Debug, PartialEq, Eq, Structural)]
pub struct Vec3s {
    pub x: i16,
    pub y: i16,
    pub z: i16,
}

} // verus!
