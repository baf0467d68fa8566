//! A tick-based 2D arena simulation: a player, enemies, projectiles and
//! cosmetic effects moving on a bounded canvas, in fixed-point coordinates.
pub mod collide;
pub mod entity;
pub mod event;
pub mod geometry;
pub mod map;
pub mod state;
