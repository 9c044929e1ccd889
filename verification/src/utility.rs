//! Helpers for laying out text in columns.

pub mod string;
