//! Documents on disk: formats, the library of known canvases, opening, saving
//! and the clipboard.
pub mod catalog;
pub mod clipboard;
pub mod format;
pub mod jobs;
pub mod laws;
pub mod library;
pub mod meaning_laws;
pub mod naming;
pub mod shelf;
pub mod state;
pub mod time;
