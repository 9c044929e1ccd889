//! The core of a terminal file browser: the directory listing and its records, the
//! selection and filter state, and the protocol by which listings and file contents are
//! requested from a background worker and applied when they arrive.

pub mod app;
pub mod file;
pub mod file_manager;
pub mod path;
pub mod utility;
pub mod workers;
