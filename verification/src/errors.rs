//! Error taxonomy of the pipeline. Only configuration errors are recovered;
//! every other failure is fatal by design and aborts the program with a
//! diagnostic, which the embedding binary performs.

use vstd::prelude::*;

verus! {

/// A command-line value was rejected before any resource was acquired.
#[derive(Clone, Copy, Debug, PartialEq, Eq, Structural)]
pub enum StartupConfigError {
    /// The monitor index argument is not a valid non-negative integer.
    InvalidMonitorId,
    /// The frame-rate argument is not a valid positive integer.
    InvalidFps,
}

/// A captured frame could not be turned into a pixel buffer.
#[derive(Clone, Copy, Debug, PartialEq, Eq, Structural)]
pub enum CaptureFrameError {
    /// The raw buffer length does not match `width * height * bytes-per-pixel`.
    BufferSizeMismatch,
}

/// A frame could not be prepared for texture upload and draw.
#[derive(Clone, Copy, Debug, PartialEq, Eq, Structural)]
pub enum RenderFrameError {
    /// The frame's dimensions differ from the session geometry fixed at startup.
    GeometryMismatch,
}

impl StartupConfigError {
    /// A one-line diagnostic for the error stream.
    pub fn message(&self) -> (r: &'static str)
        ensures
            *self is InvalidMonitorId ==> r@ == "Monitor ID must be an integer"@,
            *self is InvalidFps ==> r@ == "Target frames per second must be integer"@,
    {
        match self {
            StartupConfigError::InvalidMonitorId => "Monitor ID must be an integer",
            StartupConfigError::InvalidFps => "Target frames per second must be integer",
        }
    }
}

impl CaptureFrameError {
    /// A one-line diagnostic for the error stream.
    pub fn message(&self) -> (r: &'static str)
        ensures
            r@ == "Captured buffer length does not match the capture geometry"@,
    {
        "Captured buffer length does not match the capture geometry"
    }
}

impl RenderFrameError {
    /// A one-line diagnostic for the error stream.
    pub fn message(&self) -> (r: &'static str)
        ensures
            r@ == "Frame dimensions differ from the startup geometry"@,
    {
        "Frame dimensions differ from the startup geometry"
    }
}

} // verus!
