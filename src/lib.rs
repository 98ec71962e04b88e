//! Preview resolution, caching and rendering for a two-pane story browser.

pub mod model;
pub mod text;
pub mod listing;
pub mod preview;
pub mod render;
