use crate::vectors::Vector2;
use crate::vectors::Vector3;
use crate::vectors::Vector4;
use vstd::prelude::*;

verus! {

/// A 2-vector from its components, in index order.
pub fn vec2<T>(f1: T, f2: T) -> (r: Vector2<T>)
    ensures
        r.x == f1,
        r.y == f2,
{
    Vector2 { x: f1, y: f2 }
}

/// A 3-vector from its components, in index order.
pub fn vec3<T>(f1: T, f2: T, f3: T) -> (r: Vector3<T>)
    ensures
        r.x == f1,
        r.y == f2,
        r.z == f3,
{
    Vector3 { x: f1, y: f2, z: f3 }
}

/// A 4-vector from its components, in index order.
pub fn vec4<T>(f1: T, f2: T, f3: T, f4: T) -> (r: Vector4<T>)
    ensures
        r.x == f1,
        r.y == f2,
        r.z == f3,
        r.w == f4,
{
    Vector4 { x: f1, y: f2, z: f3, w: f4 }
}

} // verus!
