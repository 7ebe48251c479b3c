//! Simulation core of a fixed-timestep 2D brick-breaking arcade game.
//!
//! The library covers the per-tick pipeline: mapping the input snapshot to a
//! paddle-movement intent, integrating paddle and ball motion, and resolving
//! collisions between the ball's bounding circle and the axis-aligned boxes of
//! the static colliders (walls, corners, bricks, paddle), including brick
//! destruction and collision-event emission.
//!
//! All geometry is carried in exact integer world units (see `constants`), so
//! every query is a precise clamp/distance computation with no tolerance.
//! Windowing, rendering, asset loading and the entity store belong to the
//! surrounding host, which drives these functions once per fixed tick.

pub mod components;
pub mod constants;
pub mod events;
pub mod fixed_update;
pub mod geometry;
pub mod input;
pub mod keybindings;
