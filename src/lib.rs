//! Edits the artist, title and year held in MP3 and M4A audio files.
//!
//! The library decides what to write: it detects a file's format from its
//! extension, resolves the values asked for on the command line against a
//! saved profile, and applies the resulting plan to an in-memory tag.

pub mod names;
pub mod numbers;
pub mod format;
pub mod command;
pub mod cli;
pub mod config;
pub mod plan;
pub mod tags;
pub mod execute;
