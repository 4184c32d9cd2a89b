//! What an application asks of the engine when it starts.

use vstd::prelude::*;

verus! {

/// Where the application's window opens, how large, and under which name.
pub struct AppConfig {
    /// Horizontal position of the window.
    pub x: i16,
    /// Vertical position of the window.
    pub y: i16,
    /// Width of the window.
    pub width: u16,
    /// Height of the window.
    pub height: u16,
    /// Name of the application, shown as the window's title.
    pub name: String,
}

/// Marker for the part of an application that takes the engine's events.
pub struct EventHandler;

} // verus!
