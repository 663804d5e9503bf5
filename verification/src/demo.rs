//! Playing back how a picture was drawn.
pub mod pixels;
pub mod player;
pub mod watermark;
