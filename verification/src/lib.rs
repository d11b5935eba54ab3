//! Movement, animation and tile-probing rules of a small 2D platformer.
//!
//! The engine side (reading input, the physics body, the tile map, playing
//! animations) hands plain values to these functions and carries out the
//! decisions they return.

pub mod motion;
pub mod tile_map_rules;
pub mod player;
pub mod player_advanced;
