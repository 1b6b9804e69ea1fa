//! Core of a turn-based gladiator career game: the item and equipment
//! model, inventory and store transactions, turn-based combat resolution,
//! and the weekly career state machine.
//!
//! Terminal rendering, menu prompts, and save-file encoding are left to the
//! surrounding binary; this crate exposes plain data and verified
//! transition functions.

pub mod decimal;
pub mod equipment;
pub mod game;
pub mod inventory;
pub mod items;
pub mod player;
pub mod store;
