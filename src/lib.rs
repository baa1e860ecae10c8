//! Rules engine of a turn-based tactical board game: one monster against three
//! satellites on a grid of terrain cells.
//!
//! The crate holds the terrain model, the board and its condition decay, the
//! actors and their combat arithmetic, the targeting shapes of every ability
//! and the turn/phase state machine. Rendering, audio and input bindings live
//! outside and talk to it through plain values.

pub mod terrain;
pub mod board;
pub mod levels;
pub mod entities;
pub mod targeting;
pub mod scene;
pub mod game;
