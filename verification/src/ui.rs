//! The state behind the screen: the document, the wizard, the cursor,
//! and what each key press does to them.

pub mod config;
pub mod popup_state;
pub mod text_field;
pub mod view_state;
pub mod view;
pub mod core_ui;
