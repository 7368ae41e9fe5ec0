pub mod orientation;
pub mod bullet;
pub mod player;
