//! Composition, layout and event routing for a small widget toolkit.
//!
//! Widgets implement a handful of narrow capabilities (fill a rectangle,
//! fill by width, translate, report their height, build geometry, receive
//! signals). Containers compose children over those capabilities, and the
//! leaf widgets carry the press and selection state machines.
//!
//! Coordinates are fixed-point integers: [`geometry::UNIT`] stands for one
//! normalized screen unit.

pub mod geometry;
pub mod signal;
pub mod construct;
pub mod containers;
pub mod switch_container;
pub mod column;
pub mod button;
pub mod text;
pub mod text_input;
