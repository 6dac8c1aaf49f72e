pub mod bullets;
pub mod enemies;
