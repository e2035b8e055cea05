//! Errors that the runtime reports to its callers.
use vstd::prelude::*;

verus! {

/// Why RGBA data does not make a window icon.
#[derive(Debug, Clone, Copy, PartialEq, Eq, Structural)]
pub enum IconError {
    /// The data is not a whole number of four byte pixels.
    ByteCountNotDivisibleBy4 { byte_count: usize },
    /// The data does not hold `width * height` pixels.
    DimensionsVsPixelCount { width: u32, height: u32, width_x_height: usize, pixel_count: usize },
    /// The system refused the icon.
    Os,
}

/// What a request to the runtime can fail with.
#[derive(Debug, Clone, Copy, PartialEq, Eq, Structural)]
pub enum Error {
    /// The request did not reach the window or webview that it names.
    FailedToSendMessage,
    /// The event loop went away before it answered.
    FailedToReceiveMessage,
    /// The icon is not valid RGBA data.
    InvalidIcon(IconError),
}

/// Why there is no raw handle for a window.
#[derive(Debug, Clone, Copy, PartialEq, Eq, Structural)]
pub enum HandleError {
    NotSupported,
    Unavailable,
}

} // verus!
