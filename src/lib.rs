//! Path validation for a set of file utilities: readability checks, target
//! resolution and the decision to provision a missing target directory.

pub mod args;
pub mod file_keeper;
