//! The persisted window state. Reading and writing the state file is the
//! caller's I/O; the shape and defaults live here.

use vstd::prelude::*;

verus! {

/// The window geometry persisted across sessions.
#[derive(Debug, Clone, Copy, PartialEq, Eq, Structural)]
pub struct WindowState {
    /// Window width in pixels.
    pub width: i32,
    /// Window height in pixels.
    pub height: i32,
}

impl Default for WindowState {
    /// The default window geometry.
    fn default() -> (r: Self)
        ensures
            r.width == 1024,
            r.height == 720,
    {
        WindowState { width: 1024, height: 720 }
    }
}

} // verus!
