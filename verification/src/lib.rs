pub mod app;
pub mod commander;
pub mod env;
pub mod event;
pub mod keybinds;
pub mod strings;
pub mod ui;
