//! A four-directional walking sprite: the queue of held direction keys, the
//! per-tick update of the player, the selection of the sprite frame to draw,
//! and the state machine of the frame loop.

pub mod direction;
pub mod game;
pub mod geometry;
pub mod input;
pub mod player;
pub mod render;
