//! Scene objects and the object manager.
//!
//! An object is a positioned instance of a loaded mesh set (a "model"):
//! a local transform plus a reference to the meshes it draws with.  The
//! manager owns the fixed objects of the scene (the ground plane) and a
//! mutable, insertion-ordered list of spawned "actor" objects, and exposes
//! a stable iteration order: fixed objects first, then actors.  That order
//! is the draw order.
//!
//! Transform components are plain integer values in scene units, as the
//! scene files configure them; the host turns them into floating-point
//! matrices when it uploads an object's uniform buffer.

use vstd::prelude::*;

verus! {

/// An integer 3-vector in scene units.
#[derive(Clone, Copy, Debug, PartialEq, Eq, Structural)]
pub struct Vec3i {
    pub x: i64,
    pub y: i64,
    pub z: i64,
}

/// A coordinate axis.
#[derive(Clone, Copy, Debug, PartialEq, Eq, Structural)]
pub enum Axis {
    X,
    Y,
    Z,
}

/// A rotation given as an axis and an angle in whole degrees.
#[derive(Clone, Copy, Debug, PartialEq, Eq, Structural)]
pub struct AxisAngle {
    pub axis: Axis,
    pub degrees: i64,
}

/// One mesh of a model: which material it draws with and how many indices
/// its indexed draw call covers.
#[derive(Clone, Copy, Debug, PartialEq, Eq, Structural)]
pub struct MeshInfo {
    pub material_id: u32,
    pub num_elements: u32,
}

/// A loaded mesh set.  The vertex and index buffers live with the host;
/// the library sees what the draw loop needs of each mesh.
#[derive(Clone, Debug, PartialEq)]
pub struct Model {
    pub meshes: Vec<MeshInfo>,
}

/// A positioned, scaled, rotated instance of a model.
#[derive(Clone, Debug, PartialEq)]
pub struct Object {
    pub model: Model,
    pub position: Vec3i,
    pub rotation: AxisAngle,
    pub scale: Vec3i,
}

/// The identity rotation, written as zero degrees about the Z axis.
pub open spec fn spec_identity_rotation() -> AxisAngle {
    AxisAngle { axis: Axis::Z, degrees: 0 }
}

impl Object {
    /// An object with the given transform.
    pub fn new(model: Model, position: Vec3i, rotation: AxisAngle, scale: Vec3i) -> (r: Object)
        ensures
            r.model == model,
            r.position == position,
            r.rotation == rotation,
            r.scale == scale,
    {
        Object { model, position, rotation, scale }
    }

    /// An object with the default transform: at the origin, unrotated,
    /// at unit scale.
    pub fn from_model(model: Model) -> (r: Object)
        ensures
            r.model == model,
            r.position == (Vec3i { x: 0, y: 0, z: 0 }),
            r.rotation == spec_identity_rotation(),
            r.scale == (Vec3i { x: 1, y: 1, z: 1 }),
    {
        Object {
            model,
            position: Vec3i { x: 0, y: 0, z: 0 },
            rotation: AxisAngle { axis: Axis::Z, degrees: 0 },
            scale: Vec3i { x: 1, y: 1, z: 1 },
        }
    }
}

/// The scene's objects: the fixed ground plane first, then the actors in
/// insertion order.
pub struct ObjectManager {
    immutable_objects: Vec<Object>,
    actors: Vec<Object>,
}

impl ObjectManager {
    /// The fixed objects, owned for the process lifetime.
    pub closed spec fn immutables(&self) -> Seq<Object> {
        self.immutable_objects@
    }

    /// The spawned actor objects, in insertion order.
    pub closed spec fn actors(&self) -> Seq<Object> {
        self.actors@
    }

    /// The iteration order of the scene, which is also the draw order:
    /// fixed objects first, then actors in insertion order.
    pub open spec fn draw_order(&self) -> Seq<Object> {
        self.immutables() + self.actors()
    }

    /// A scene with the ground plane as its only fixed object — built
    /// from the given model, at the origin, unrotated, scaled to
    /// `(100, 100, 100)` — and no actors.
    pub fn new(ground_model: Model) -> (r: ObjectManager)
        ensures
            r.immutables().len() == 1,
            r.immutables()[0].model == ground_model,
            r.immutables()[0].position == (Vec3i { x: 0, y: 0, z: 0 }),
            r.immutables()[0].rotation == spec_identity_rotation(),
            r.immutables()[0].scale == (Vec3i { x: 100, y: 100, z: 100 }),
            r.actors().len() == 0,
    {
        let mut ground = Object::from_model(ground_model);
        ground.scale = Vec3i { x: 100, y: 100, z: 100 };

        let mut immutable_objects: Vec<Object> = Vec::new();
        immutable_objects.push(ground);

        ObjectManager { immutable_objects, actors: Vec::new() }
    }

    /// Appends an actor at the end of the iteration order.
    pub fn add_actor(&mut self, object: Object)
        ensures
            final(self).actors() == old(self).actors().push(object),
            final(self).immutables() == old(self).immutables(),
    {
        self.actors.push(object);
    }

    /// Removes the actor at this index of the actor list, shifting the
    /// actors behind it one index forward.  Indices cached across a
    /// removal are stale; the index must be in bounds.
    pub fn remove_actor(&mut self, index: usize)
        requires
            index < old(self).actors().len(),
        ensures
            final(self).actors() == old(self).actors().remove(index as int),
            final(self).immutables() == old(self).immutables(),
    {
        self.actors.remove(index);
    }

    /// How many actors the scene has.
    pub fn actor_count(&self) -> (n: usize)
        ensures
            n == self.actors().len(),
    {
        self.actors.len()
    }

    /// The objects in iteration order: fixed objects first, then actors
    /// in insertion order.
    pub fn iter(&self) -> (r: Vec<&Object>)
        ensures
            r@.len() == self.draw_order().len(),
            forall|i: int| 0 <= i < r@.len() ==> *r@[i] == self.draw_order()[i],
    {
        let mut r: Vec<&Object> = Vec::new();
        let mut k: usize = 0;
        while k < self.immutable_objects.len()
            invariant
                k <= self.immutables().len(),
                r@.len() == k,
                forall|i: int| 0 <= i < k ==> *r@[i] == self.draw_order()[i],
            decreases self.immutables().len() - k,
        {
            r.push(&self.immutable_objects[k]);
            k = k + 1;
        }
        let mut k: usize = 0;
        while k < self.actors.len()
            invariant
                k <= self.actors().len(),
                r@.len() == self.immutables().len() + k,
                forall|i: int| 0 <= i < r@.len() ==> *r@[i] == self.draw_order()[i],
            decreases self.actors().len() - k,
        {
            r.push(&self.actors[k]);
            k = k + 1;
        }
        r
    }

    /// The object at this index of the iteration order.
    pub fn get(&self, index: usize) -> (r: &Object)
        requires
            index < self.draw_order().len(),
        ensures
            *r == self.draw_order()[index as int],
    {
        if index < self.immutable_objects.len() {
            &self.immutable_objects[index]
        } else {
            &self.actors[index - self.immutable_objects.len()]
        }
    }
}

} // verus!
