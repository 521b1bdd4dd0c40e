//! Connection profiles and the groups that hold them.

pub mod connection_type;
pub mod endpoint;
pub mod session;
pub mod session_group;
