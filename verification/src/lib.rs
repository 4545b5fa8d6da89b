//! Rename music files from their embedded metadata.
//!
//! The library derives a new file name of the form
//! `parent/"{track:02}-{title}.{ext}"` from a file's tag (title and track
//! number) and decides, per file, what a driver should print and whether it
//! should rename, honouring dry-run and verbose modes.

pub mod errors;
pub mod numfmt;
pub mod tag;
pub mod filename;
pub mod report;
pub mod plan;
