//! Filesystem-facing parts: the exclusion set and the project directory
//! scanner.

pub mod exclude;
pub mod project_dir;
