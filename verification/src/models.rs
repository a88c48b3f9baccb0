//! The commands, the expenses and the errors.

pub mod config;
pub mod deletion;
pub mod error;
pub mod expense;
pub mod laws;
pub mod listing;
pub mod records;
pub mod summary;
