//! Typed views of the game's objects in the target's memory.
pub mod abnormalities;
pub mod action;
pub mod collision;
pub mod monster;
pub mod mt_types;
pub mod player;
pub mod quest;
pub mod save;
