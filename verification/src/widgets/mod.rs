//! Widgets: modals, inputs, viewers and status bars.

pub mod faceted_search;
pub mod text_input;
pub mod powerline;
pub mod spinner;
pub mod status_message;
pub mod log_viewer;
pub mod confirm_modal;
pub mod error_modal;
pub mod help_modal;
pub mod line_range_modal;

pub mod log_modal;
pub mod ssh_modal;
