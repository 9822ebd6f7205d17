pub mod fuzzy;
pub mod key;
pub mod keys;
pub mod mouse;
pub mod text_editor;
