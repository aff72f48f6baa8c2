pub mod bookmarks_tab;
pub mod branches;
pub mod branches_tab;
pub mod command_log_tab;
pub mod command_popup;
pub mod details_panel;
pub mod files_tab;
pub mod help_popup;
pub mod log;
pub mod log_tab;
pub mod panel;
pub mod rebase_popup;
pub mod scrollbar;
pub mod utils;
