//! The state and the rules of a painting studio: panel docking, the document
//! library, the file browser, filter stacks, exports and the small services
//! around them.
pub mod text;
pub mod browser;
pub mod demo;
pub mod dock;
pub mod drop;
pub mod export;
pub mod files;
pub mod filters;
pub mod gallery;
pub mod gamepad;
pub mod lists;
pub mod numbers;
pub mod order;
pub mod paths;
pub mod presence;
