//! The two resource managers.

pub mod comments;
pub mod post;
