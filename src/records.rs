//! The signatures of the game functions and data that the toolkit locates.
pub mod game;
pub mod monster;
pub mod inline;
pub mod player;
pub mod chat;
pub mod quest;
pub mod action;
pub mod weapon;
pub mod steamwork;
pub mod c_system;
