//! Glyph curve atlas and status models for a text-drawing status bar.
//!
//! Coordinates are carried as the bit patterns of single precision numbers:
//! this crate moves and counts curves, it never computes with a coordinate.

pub mod battery;
pub mod contour;
pub mod curve;
pub mod files;
pub mod font;
pub mod netlink;
pub mod network;
pub mod renderer;
pub mod state;
pub mod sway;
