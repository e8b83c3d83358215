//! Candidate locations for an application's configuration files.
//!
//! A [`ConfigDirs`] accumulates, without duplicates, the directories in
//! which a configuration file may live; searching it yields, for every
//! accumulated directory, the normal file name and its `.local` override
//! variant.

pub mod path_model;
pub mod path_ops;
pub mod name;
pub mod dirs;
pub mod candidates;
pub mod laws;

pub use candidates::ConfigCandidates;
pub use dirs::{ConfigDirs, CurrentDirUnavailable};
pub use name::WithLocal;
