//! A terminal-rendered arcade shooter engine: game state, a fixed-timestep
//! frame scheduler and a text renderer for a character grid sized to the
//! terminal.

pub mod clock;
pub mod entities;
pub mod game;
pub mod render;
pub mod text;

pub use clock::{measured_frame_rate, target_frame_micros, FrameClock};
pub use entities::{Alien, FallingStar, Player, Projectile};
pub use game::{Arguments, GameError, GameState, TermSize};
pub use render::{paint_row, render, status};
pub use text::{left_pad, replace_at, right_pad};
