//! Verified focus navigation, geometry and view-state logic for a small
//! embedded UI toolkit.
pub mod focus;
pub mod primitives;
pub mod event;
pub mod view;
pub mod layout;
pub mod render;
