//! Settings of the two hosting modes.

pub mod forward;
pub mod reverse;
