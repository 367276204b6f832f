//! Card taxonomy, card geometry and the dealing rules of a Hanafuda table.

pub mod cards;
pub mod geometry;
pub mod mesh;
pub mod table;
pub mod player;
pub mod game;
