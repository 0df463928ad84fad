use vstd::prelude::*;

verus! {

/// Border colour of the window that holds the input focus.
pub const FOCUSED_BORDER: u32 = 0x00bfff;

/// Border colour of every other window.
pub const UNFOCUSED_BORDER: u32 = 0x8b8378;

/// Border width, in pixels, of a window outside fullscreen mode.
pub const BORDER_WIDTH: u32 = 3;

/// Position and size of a window, in pixels. The fields are signed so that a
/// region too small for its gaps yields the negative size the layout formula
/// gives rather than a wrapped one.
#[derive(Clone, Copy, Debug, PartialEq, Eq)]
pub struct Geometry {
    pub x: i32,
    pub y: i32,
    pub width: i32,
    pub height: i32,
}

/// One rectangle of the screen, as the server reports a monitor.
#[derive(Clone, Copy, Debug, PartialEq, Eq)]
pub struct ScreenInfo {
    pub x_org: i16,
    pub y_org: i16,
    pub width: u16,
    pub height: u16,
}

/// A request for the protocol client (or the host process) to carry out.
#[derive(Clone, Debug, PartialEq, Eq)]
pub enum Request {
    /// Move and resize a window and, where `border_width` is given, set its
    /// border width with the same request.
    Configure { window: u32, geometry: Geometry, border_width: Option<u32> },
    /// Set a window's border width.
    SetBorderWidth { window: u32, width: u32 },
    /// Set a window's border colour.
    SetBorderColor { window: u32, pixel: u32 },
    /// Raise a window above its siblings.
    Raise { window: u32 },
    /// Give a window the input focus.
    SetInputFocus { window: u32 },
    /// Route button presses on a window through the manager.
    GrabButton { window: u32 },
    /// Let button presses reach the window's client directly.
    UngrabButton { window: u32 },
    /// Ask a window's client to close it: a client message of type
    /// `protocol` whose first datum is `delete`.
    SendClose { window: u32, protocol: u32, delete: u32 },
    /// Take a new window under management: add it to the save set and map it.
    Adopt { window: u32 },
    /// Grant the geometry that the client of `window` has just asked for.
    HonorConfigure { window: u32 },
    /// Register a key combination as a global grab on the root window.
    GrabKey { keycode: u8, modifiers: u16 },
    /// Start a detached process and track it.
    Spawn { prog: String, args: Vec<String> },
    /// Terminate the process with exit code 0.
    Exit,
}

} // verus!
