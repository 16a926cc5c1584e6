//! Simulation core of a card-drafting auto-battler.

pub mod battle;
pub mod bounds;
pub mod catalog;
pub mod combat;
pub mod dice;
pub mod draft;
pub mod engine;
pub mod laws;
pub mod party;
pub mod round;
pub mod wave;
