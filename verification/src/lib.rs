//! A verified engine for a turn-based grid adventure.
//!
//! The player walks a fixed grid of rooms joined by directional exits, some
//! blocked, gathering treasure while an infestation spreads through the
//! cleared passages. The crate holds the world model (rooms, exits, the
//! grid), the movement and clearing rules, the infestation tick, and the
//! turn state machine; reading commands and printing narration are left to
//! the surrounding program.

pub mod direction;
pub mod room;
pub mod grid;
pub mod engine;
pub mod game;
