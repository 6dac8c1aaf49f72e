pub mod draw;
pub mod game;
pub mod input_manager;
pub mod managers;
pub mod objects;
