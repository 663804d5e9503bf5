//! Exporting pictures: options, previews and estimates of size.
pub mod options;
pub mod pixels;
pub mod studio;
