pub mod details_panel;
pub mod log_panel;
