//! Views that wrap another view to change how it behaves.
pub mod popover;

pub use popover::Popover;
