//! Pointer interaction for a grid of tiles.
//!
//! Each tile carries a rectangle around its world position and a pair of
//! flag timers (hovered, held). Once per tick the pointer sample and the state
//! of the primary button are folded into every tile, and the transitions that
//! matter to the game (push, drag, release) are appended to a move log.
//!
//! All quantities are integers: world coordinates and lengths are whole world
//! units, durations are whole nanoseconds.

pub mod buttons;
pub mod collision;
pub mod grid;
pub mod input;
pub mod interact;
pub mod moves;
pub mod tile;
pub mod timer;
