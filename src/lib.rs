//! A small command-line configuration model and three counting operations.
//!
//! The library holds the configuration that the command line selects, the
//! counting operations with their exact output, and the framing of the
//! list-valued option before it is handed to a TOML reader.
pub mod config;
pub mod list_arg;
pub mod ops;
pub mod report;
pub mod text;
