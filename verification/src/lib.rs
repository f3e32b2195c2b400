//! A frame-by-frame simulation of a small 2D scene: one entity steered by the
//! keyboard, pursuers that close in on it, and axis-aligned overlap detection.
//!
//! Coordinates are fixed-point: every length is a whole number of tenths of a
//! world unit, so that the step sizes of the scene (1.0 and 0.8 world units)
//! are exact and every statement about positions is a statement about
//! integers.

pub mod units;
pub mod geometry;
pub mod input;
pub mod movement;
pub mod pursuit;
pub mod render;
pub mod collision;
pub mod entity;
pub mod scene;
pub mod systems;
pub mod frame;
pub mod bootstrap;
