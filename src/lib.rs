//! Core of a turn-based grid world: a three-dimensional tile map, entities
//! that move across it under blocking rules, and the bookkeeping around a
//! field-of-view result computed from a viewpoint.

pub mod tile;
pub mod grid;
pub mod color;
pub mod object;
pub mod occupancy;
pub mod visibility;
pub mod turn;
