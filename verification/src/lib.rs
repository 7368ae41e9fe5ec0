pub mod components;
pub mod systems;
pub mod states;
pub mod game;
