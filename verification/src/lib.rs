//! A small journaling library.
//!
//! Notes are plain text files grouped into category directories. This crate
//! holds the verified logic of the journal: parsing numeric tokens, loading
//! and encoding the persisted editor preference, dispatching command-line
//! arguments to an action, building note paths, and resolving a numeric
//! selection against a directory listing. All file, terminal and process
//! handling lives outside the library and exchanges plain values with it.

pub mod dispatch;
pub mod editor;
pub mod notes;
pub mod numerals;
