//! The services: what a request does to the stories and the content of a
//! user, on top of any store.

pub mod content;
pub mod error;
pub mod story;
pub mod user;
