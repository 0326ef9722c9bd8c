//! Loading of the user's configuration: the configuration model, its
//! defaults, and the decisions taken while loading it from disk.
pub mod config;
pub mod error;
pub mod load;
