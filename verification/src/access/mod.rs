//! Access to the entities that the service keeps: the contract that every
//! store meets, a store that holds its records in memory, and the rules of a
//! store of files.

pub mod entity;
pub mod files;
pub mod memory;
pub mod records;
pub mod scan;
pub mod store;
