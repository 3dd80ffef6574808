//! Persistence and update engine of a journaling service: users own stories,
//! and each story is a collection of text and image blocks.
//!
//! - [`model`] holds what the store keeps, [`api`] what a client sees, and
//!   [`schema`] the loosely typed rows of a relational store with their
//!   translation into the model.
//! - [`access`] states the contract of a store as a trait over a
//!   mathematical value of what the store holds, gives a store in memory that
//!   is proved to meet it, and the rules of a store of files.
//! - [`action`] holds the services on top of any store: stories are made,
//!   read, changed and deleted for good; content is made and changed in
//!   batches. Each service is specified by what it comes to on a store that
//!   carries out every call, and by what is left where the store fails.
//! - [`auth`] holds the signed-in user behind its lock, [`handlers`] what each
//!   request does, and [`error`] what a caller is told of a failure.
//! - [`laws`] proves what holds on every input: what is written is read back,
//!   a change touches only what it names, deletion is final, a batch stops at
//!   the first unknown item, and a listing is exact.
//!
//! A UUID is a 128-bit value and a point in time a number of microseconds
//! since the Unix epoch. The services read no clock: the time of a call is
//! handed to them.

pub mod access;
pub mod action;
pub mod api;
pub mod auth;
pub mod error;
pub mod handlers;
pub mod ident;
pub mod laws;
pub mod model;
pub mod schema;
