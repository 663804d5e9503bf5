//! The home screen: the library's canvases as cards.
pub mod blur;
pub mod cards;
pub mod date;
pub mod entries;
pub mod hover;
pub mod laws;
