//! Question banks: reading and updating one SQLite-backed bank file, and
//! deciding which file-system changes concern bank files.

pub mod commands;
pub mod db;
pub mod json;
pub mod text;
pub mod watcher;
