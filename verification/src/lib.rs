//! Core simulation logic of a grid-based snake game: a discrete-time state
//! machine that tracks a moving body on a bounded grid, an item the body can
//! consume to grow, and the rules that end the game on collision.
//!
//! Rendering, window plumbing and raw keyboard decoding are outside this
//! crate; a host drives the simulation through [`game::Game`] and reads its
//! state back for display.

pub mod game;
pub mod grid;
pub mod snake;
mod rng;
