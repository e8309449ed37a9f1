pub mod menu;
pub mod settings;
pub mod tasks;
