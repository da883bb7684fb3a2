//! Resolution and configuration of an external terminal pager.
//!
//! The crate decides which pager binary to run and with what arguments and
//! environment, given a paging mode, an explicit pager setting and two
//! environment-sourced pager preferences.  It compensates for version- and
//! platform-specific quirks of `less`, guards against a pager that would
//! recurse into this program itself, and models the writable destinations a
//! caller may ask an output sink for.  Spawning the chosen process and
//! waiting for it are left to the embedding program.

pub mod config;
pub mod less_cmd;
pub mod path_stem;
pub mod resolve;
pub mod shell;
pub mod sink;
