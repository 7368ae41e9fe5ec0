pub mod player_controls;
pub mod player_take_damage;
pub mod player_attack;
pub mod hearts_system;
