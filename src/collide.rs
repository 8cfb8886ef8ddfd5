//! The intersection capability shared by every shape and by the scene.

use vstd::prelude::*;

verus! {

/// Something that a primitive, such as a ray, can be intersected with.
pub trait Collidable<TPrimitive> {
    /// What an intersection yields, such as an optional hit record.
    type Output;

    fn hit(&self, r: TPrimitive) -> Self::Output;
}

} // verus!
