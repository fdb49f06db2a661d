//! Patch and restore engine for portable application bundles.
//!
//! A bundle is a directory that holds a launcher executable next to an
//! `App/AppInfo` directory. Patching moves the launcher aside under an
//! `_original` name and puts a universal launcher stub in its place;
//! restoring reverses that. The engine never touches the disk itself: it
//! decides, one step at a time, which file operation comes next, and the
//! caller performs it and reports back what happened.

pub mod text;
pub mod names;
pub mod protocol;
pub mod apply;
pub mod restore;
pub mod model;
pub mod laws;
pub mod scan;
pub mod janitor;
pub mod launch;
pub mod cli;
