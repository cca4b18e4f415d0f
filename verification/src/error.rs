//! The ways in which setting up or resizing the bar can fail.

use vstd::prelude::*;

verus! {

/// Why the bar could not be set up or updated.
#[derive(Debug)]
pub enum BarError {
    /// No connection to the X server could be made.
    ConnectFailed,
    /// The X connection could not be wrapped in an EWMH connection.
    EwmhWrapFailed,
    /// The screen index does not name a screen of the display.
    InvalidScreen,
    /// Cairo could not create the drawing surface; the status it gave.
    SurfaceCreate(String),
}

/// The message that reports an error.
pub open spec fn spec_message(e: BarError) -> Seq<char> {
    match e {
        BarError::ConnectFailed => "Failed to connect to X server"@,
        BarError::EwmhWrapFailed => "Failed to wrap xcb::Connection in ewmh::Connection"@,
        BarError::InvalidScreen => "Invalid screen"@,
        BarError::SurfaceCreate(status) => "XCBSurface::create: "@ + status@,
    }
}

impl BarError {
    /// The message that reports this error.
    pub fn message(&self) -> (m: String)
        ensures
            m@ == spec_message(*self),
    {
        match self {
            BarError::ConnectFailed => String::from_str("Failed to connect to X server"),
            BarError::EwmhWrapFailed => String::from_str("Failed to wrap xcb::Connection in ewmh::Connection"),
            BarError::InvalidScreen => String::from_str("Invalid screen"),
            BarError::SurfaceCreate(status) => {
                let mut m = String::from_str("XCBSurface::create: ");
                m.append(status.as_str());
                m
            },
        }
    }
}

} // verus!
