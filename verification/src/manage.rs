//! Managing projects and what belongs to them.

pub mod projects;
pub mod response;
