//! Backs up a directory tree into a time-stamped zip archive.
//!
//! The library holds the decisions of the tool: which directories and files
//! are copied, how archive and staging paths are named, how elapsed time is
//! rendered, and how a yes/no answer is read.

pub mod decimal;
pub mod helpers;
pub mod timeutil;
pub mod util;
pub mod pathname;
pub mod pattern;
pub mod application;
pub mod ioutil;
