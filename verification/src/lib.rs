//! Board interaction controller for a click-driven chess interface.
//!
//! The crate turns raw pointer and key input into validated move
//! submissions for an external rule engine: it maps pixels to board
//! squares, keeps the selection/highlight state consistent across
//! clicks, and encodes committed moves in the engine's textual
//! notation. Rendering, asset loading and the rule engine itself are
//! collaborators outside this crate; the controller only consumes
//! their outputs, which callers hand in as plain values.

pub mod board;
pub mod coords;
pub mod notation;
pub mod selection;
pub mod dispatch;
pub mod controller;
