//! Named remote-connection profiles, grouped into collections: the data
//! model, the endpoint grammar, the wizard that builds a new group, and
//! the cursor that walks the flattened table of groups and sessions.

pub mod session_core;
pub mod ui;
