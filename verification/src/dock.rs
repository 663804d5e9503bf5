//! Docked strips on the four sides of the window, detached hosts, and the
//! panels in them.
//!
//! Lengths and positions are whole thousandths, weights whole millionths: a width
//! of 270 points is 270000, a weight of 2.2 is 2200000.
pub mod adjust;
pub mod column;
pub mod drop;
pub mod drop_laws;
pub mod float_drop_laws;
pub mod float_preview;
pub mod geometry;
pub mod host;
pub mod laws;
pub mod layout;
pub mod moves;
pub mod place_laws;
pub mod preview;
pub mod restore;
pub mod showing;
pub mod stored;
