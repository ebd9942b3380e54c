//! The rules of the configuration server: which file names it accepts, where it keeps
//! the files, which files it offers, and how it reads the container runtime's listing.

pub mod config;
pub mod containers;
pub mod names;
