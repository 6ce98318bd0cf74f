//! Sorting the files of one directory into Images, Documents and Audio
//! folders, each file classified by its extension.
//!
//! A run resolves its destination folders — derived from a base directory,
//! or read from a TOML configuration file — checks that the source directory
//! exists, and then walks the source's entries once, without recursing. A
//! file whose lower-cased extension lies in a category's set is moved into
//! that category's folder under its own name; directories, files without an
//! extension and files of unknown extension stay where they are. The first
//! failure aborts the run; moves already made stand.
//!
//! The organizer only decides: it turns configuration outcomes and directory
//! entries into move orders and an exit code. Reading directories, creating
//! folders and renaming files are the caller's part.

pub mod categories;
pub mod config;
pub mod extension;
pub mod laws;
pub mod organizer;
pub mod paths;
