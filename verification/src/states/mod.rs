pub mod transition;
pub mod ingame;
pub mod startup;
