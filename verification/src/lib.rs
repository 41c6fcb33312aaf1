//! A minimal local persistence layer for a single-user task list: a
//! JSON-file-backed key-value store offering whole-collection load/save and
//! per-item get/save/delete, plus a small item-creation layer that tags a
//! task with a status and persists it.
//!
//! The store works over the backing file's *content*, handed in and out as
//! plain strings: callers read the file, pass its text to the store
//! operations, and write back the text the operations produce. Items are
//! opaque JSON values; the store never looks inside them.

pub mod collection;
pub mod creates;
pub mod json;
pub mod json_file;
