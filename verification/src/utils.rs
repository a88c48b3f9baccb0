//! Texts, numbers, JSON and dates.

pub mod dates;
pub mod file_utils;
pub mod io_utils;
pub mod json;
pub mod numbers;
pub mod text;
