pub mod applet;
pub mod command;
pub mod config;
pub mod package_manager;
pub mod state;
pub mod text;
pub mod utils;
