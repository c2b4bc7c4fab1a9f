pub mod food;
pub mod game;
pub mod geom;
mod rng;
pub mod snake;
