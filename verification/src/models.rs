//! The rows of the two tables, and the writes that change them.

pub mod comments;
pub mod posts;
