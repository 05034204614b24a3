//! Skyspace: the world-simulation rules of a survival city-building
//! roguelike, as a verified library.
pub mod rng;
pub mod time;
pub mod utils;
pub mod draw;
pub mod text;
pub mod life;
pub mod physics;
pub mod worldgen;
pub mod ui;
pub mod view;
pub mod game;
