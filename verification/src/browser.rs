//! The file browser: folders, selections, filters and the side bar.
pub mod address;
pub mod filter;
pub mod going_laws;
pub mod labels;
pub mod laws;
pub mod listing;
pub mod moves;
pub mod open;
pub mod places;
pub mod search_laws;
pub mod section;
pub mod select;
pub mod shelf;
pub mod showing_laws;
pub mod state;
pub mod thumbs;
pub mod view;
pub mod view_laws;
