//! A verified tic-tac-toe game engine.
//!
//! The engine owns a 3x3 grid of markers together with the marker whose turn
//! is active. It validates coordinate tokens, enforces cell occupancy, detects
//! completed lines, and renders the grid as text. The surrounding console loop
//! lives outside the library.

pub mod board;
pub mod error;
pub mod marker;
pub mod position;
