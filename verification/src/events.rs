use vstd::prelude::*;

verus! {

/// An ephemeral, parameterless notification that a collision happened this
/// tick. One event is emitted per contacting pair, without deduplication;
/// consumers cannot tell which collider was hit.
#[derive(Clone, Copy, PartialEq, Eq, Structural, Debug, Default)]
pub struct CollisionEvent;

/// The side of a collider that a contact is attributed to, as seen from the
/// collider: a `Left` contact is on the collider's left face.
#[derive(Debug, PartialEq, Eq, Structural, Copy, Clone)]
pub enum Collision {
    Left,
    Right,
    Top,
    Bottom,
}

} // verus!
