pub mod bullet;
pub mod enemy;
pub mod starship;
