//! What the panels show: text with tones, computed from the state; the
//! host draws it.

pub mod diff_view;
pub mod help_view;
pub mod layout;
pub mod lists;
pub mod log_view;
pub mod palette_view;
pub mod panels;
pub mod popups;
pub mod text;
