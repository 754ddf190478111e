//! Mathematical vectors of two, three and four components.

use vstd::prelude::*;

verus! {

/// A two-dimensional vector ⟨x, y⟩.
#[derive(Clone, Copy, Debug, PartialEq)]
pub struct Vec2<T> {
    pub x: T,
    pub y: T,
}

impl<T> Vec2<T> {
    /// Creates a vector with the given components.
    pub fn new(x: T, y: T) -> (r: Self)
        ensures
            r == (Vec2 { x, y }),
    {
        Self { x, y }
    }
}

impl<T> From<(T, T)> for Vec2<T> {
    fn from(other: (T, T)) -> (r: Vec2<T>) {
        Vec2 { x: other.0, y: other.1 }
    }
}

impl<T> vstd::std_specs::convert::FromSpecImpl<(T, T)> for Vec2<T> {
    open spec fn obeys_from_spec() -> bool {
        true
    }

    open spec fn from_spec(v: (T, T)) -> Vec2<T> {
        Vec2 { x: v.0, y: v.1 }
    }
}

/// A three-dimensional vector ⟨x, y, z⟩.
#[derive(Clone, Copy, Debug, PartialEq)]
pub struct Vec3<T> {
    pub x: T,
    pub y: T,
    pub z: T,
}

impl<T> Vec3<T> {
    /// Creates a vector with the given components.
    pub fn new(x: T, y: T, z: T) -> (r: Self)
        ensures
            r == (Vec3 { x, y, z }),
    {
        Self { x, y, z }
    }
}

impl<T> From<(T, T, T)> for Vec3<T> {
    fn from(other: (T, T, T)) -> (r: Vec3<T>) {
        Vec3 { x: other.0, y: other.1, z: other.2 }
    }
}

impl<T> vstd::std_specs::convert::FromSpecImpl<(T, T, T)> for Vec3<T> {
    open spec fn obeys_from_spec() -> bool {
        true
    }

    open spec fn from_spec(v: (T, T, T)) -> Vec3<T> {
        Vec3 { x: v.0, y: v.1, z: v.2 }
    }
}

/// A four-dimensional vector ⟨x, y, z, w⟩.
#[derive(Clone, Copy, Debug, PartialEq)]
pub struct Vec4<T> {
    pub x: T,
    pub y: T,
    pub z: T,
    pub w: T,
}

impl<T> Vec4<T> {
    /// Creates a vector with the given components.
    pub fn new(x: T, y: T, z: T, w: T) -> (r: Self)
        ensures
            r == (Vec4 { x, y, z, w }),
    {
        Self { x, y, z, w }
    }
}

impl<T> From<(T, T, T, T)> for Vec4<T> {
    fn from(other: (T, T, T, T)) -> (r: Vec4<T>) {
        Vec4 { x: other.0, y: other.1, z: other.2, w: other.3 }
    }
}

impl<T> vstd::std_specs::convert::FromSpecImpl<(T, T, T, T)> for Vec4<T> {
    open spec fn obeys_from_spec() -> bool {
        true
    }

    open spec fn from_spec(v: (T, T, T, T)) -> Vec4<T> {
        Vec4 { x: v.0, y: v.1, z: v.2, w: v.3 }
    }
}

} // verus!
