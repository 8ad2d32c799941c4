//! A platform adapter that translates native window-system events (mouse,
//! keyboard, text composition, resize) into a GUI toolkit's per-frame input
//! queue, and applies toolkit output commands (clipboard, URL opening, cursor
//! changes) back to the platform.

pub mod errors;
pub mod events;
pub mod model;
pub mod output;
pub mod outside;
pub mod platform;
