//! Core of a tile-based puzzle-arcade game: a single actor walks a 16x16
//! grid of byte-coded tiles, collecting carrots, eggs and keys, flipping
//! switches, riding conveyors and avoiding traps, until a win condition
//! unlocks the finish tile.
//!
//! The crate is organised in four parts:
//! - [`tile`]: the rule table for the tile codes — what blocks movement,
//!   what a tile becomes when departed, and the global switch toggles;
//! - [`level`]: the binary level format and its decoder, plus the level
//!   identifiers with their cyclic ordering;
//! - [`actor`]: the actor state machine — move validation, buffered input,
//!   and the per-tick advance that resolves tile effects on arrival;
//! - [`render`]: the pure step clock that turns an actor and a frame
//!   counter into sprite and screen rectangles.

pub mod actor;
pub mod level;
pub mod render;
pub mod tile;
