//! Core of a terminal weather dashboard: forecast sampling, the fixed-ratio
//! panel layout, frame composition and the interactive loop's decisions.

pub mod error;
pub mod event_loop;
pub mod forecast;
pub mod input;
pub mod layout;
pub mod render;
pub mod sampler;
pub mod session;
pub mod text;
