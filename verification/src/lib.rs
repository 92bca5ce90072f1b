//! The level world and player movement of a top-down arcade game.
//!
//! A level is a rectangular grid of tiles with a solid border and a random
//! interior. Each tick the player's wish to move is held against the tiles
//! that block: an axis that would run into a tile is stopped, and a player
//! who pushes against the edge of a tile is nudged round its corner.
//!
//! Every quantity is a whole number of millionths: a length of its world
//! unit, an axis value of full deflection, a duration of a second (see
//! [`units::ONE`]). Nothing is rounded but the product of an axis value and
//! a speed, and that toward zero, so that left and right move alike.
//!
//! The library holds no window, no clock and no input device. A host asks
//! the states in [`states`] and [`gameplay`] what an event calls for, hands
//! each tick's axis values and duration to [`gameplay::GameplayState::update`]
//! and shows the tiles and the player that the state holds.

pub mod block;
pub mod bomberman;
pub mod gameplay;
pub mod grid;
pub mod movement;
mod random;
pub mod states;
pub mod tile;
pub mod units;
pub mod world;
