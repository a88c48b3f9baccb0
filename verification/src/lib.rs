//! An expense tracker: commands that add, list, sum up and delete expenses,
//! which are kept as JSON.
//!
//! The library reads the commands and works on the two documents, the
//! counter of identifiers and the list of expenses. It opens no file and
//! reads no clock: the caller hands it what the files held and the present
//! moment, and saves what it gives back. It holds no floating point: an
//! amount comes as the bits of a double, and the amounts of a total are
//! handed out to be added up.

pub mod models;
pub mod utils;
