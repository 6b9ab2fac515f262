//! Downloads the MNIST datasets into a directory: for each of four fixed
//! gzip files, fetch it, keep the compressed copy, and write its decompressed
//! bytes beside it. The run stops at the first failure.
//!
//! `session::Session` makes every decision and says what to do next; the
//! caller fetches, reads and writes, and reports back.

pub mod error;
pub mod gzip;
pub mod laws;
pub mod names;
pub mod plan;
pub mod session;
pub mod url_name;
