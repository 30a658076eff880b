//! Small generic vector and matrix carriers.

use vstd::prelude::*;

verus! {

/// Three components of one scalar type.
#[derive(PartialEq, Eq, Copy, Clone, Hash, Debug)]
pub struct Vector3<T> {
    pub x: T,
    pub y: T,
    pub z: T,
}

/// Four components of one scalar type.
#[derive(PartialEq, Eq, Copy, Clone, Hash, Debug)]
pub struct Vector4<T> {
    pub x: T,
    pub y: T,
    pub z: T,
    pub w: T,
}

/// Four columns of four components each.
#[derive(PartialEq, Eq, Copy, Clone, Hash, Debug)]
pub struct Mat4<T> {
    pub x: Vector4<T>,
    pub y: Vector4<T>,
    pub z: Vector4<T>,
    pub w: Vector4<T>,
}

} // verus!
