//! The widget kinds: each implements the widget protocol of the crate root.

pub mod button;
pub mod toggle_button;
