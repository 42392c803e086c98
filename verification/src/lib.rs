//! Rules of a small publishing backend: posts and comments, who may change
//! them, how the publish flag moves the publish time, and how listings are
//! paged.
//!
//! The datastore and the web layer stay outside. Every operation here is a
//! step between two of their calls: it takes what the datastore found and
//! the caller's resolved identity, and gives either the error to answer with
//! or the value to hand to the datastore next.

pub mod active;
pub mod clock;
pub mod controllers;
pub mod error;
pub mod identity;
pub mod models;
