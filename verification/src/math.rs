//! Placeholders of the engine's math types. The vector and number types work on floating
//! point values and are not part of this library.

use vstd::prelude::*;

verus! {

/// A vector; not filled in yet.
pub struct Vec3 {}

/// A rotation; not filled in yet.
pub struct Quartenion {}

/// A point in space; not filled in yet.
pub struct Point3 {}

} // verus!
