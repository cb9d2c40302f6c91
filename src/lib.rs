pub mod command;
pub mod game;
pub mod item;
pub mod player;
pub mod world;
