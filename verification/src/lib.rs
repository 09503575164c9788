//! Verified core of a 2D arcade shooter: the screen state machine and the
//! per-tick simulation and collision pipeline.
//!
//! All geometry is carried in integer milliunits (one thousandth of a logical
//! pixel) and all times in integer milliseconds, so that every per-tick
//! computation is exact and free of overflow. The unverified layer around the
//! library converts to and from the windowing system's own units at the edge.

pub mod bullets;
pub mod data;
pub mod game;
pub mod gfx;
pub mod main_menu;
pub mod phi;
pub mod rng;
pub mod shared;
pub mod views;
