//! The filter studio: the filters and their parameters, stacks of filters, and
//! the state of the window in which stacks are put together.
pub mod choice;
pub mod control;
pub mod control_laws;
pub mod cover;
pub mod effective;
pub mod eyedrop;
pub mod feed;
pub mod flow;
pub mod key;
pub mod kind;
pub mod kind_laws;
pub mod limits;
pub mod look_laws;
pub mod params;
pub mod pixels;
pub mod presets;
pub mod range;
pub mod render;
pub mod run_laws;
pub mod session;
pub mod setting;
pub mod setting_laws;
pub mod studio;
pub mod studio_laws;
pub mod tell;
pub mod tone;
pub mod window;
