//! Rules of a ladder-climbing, turn-based crafting game: a deterministic
//! random generator fed by host entropy, the tile map and its per-turn
//! evolution, and the commit / ordered-redeem protocol of each character.

pub mod actions;
pub mod caster;
pub mod chest;
pub mod enums;
pub mod error;
pub mod game;
pub mod items;
pub mod keys;
pub mod merkle;
pub mod order;
pub mod redeem;
pub mod rng;
pub mod setup;
pub mod tile;
pub mod turn;
pub mod vector;
