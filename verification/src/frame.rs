//! Captured frames and the session geometry: the pixel size read once from
//! the capture source at startup, and the checked conversion of a raw
//! capture buffer into a frame.

use vstd::prelude::*;
use crate::errors::CaptureFrameError;

verus! {

/// Bytes per captured pixel: one byte each for the three color channels
/// and one padding byte, as the capture source stores them.
pub const BYTES_PER_PIXEL: u32 = 4;

/// Pixel size of the capture region, read once at startup; it also fixes
/// the window and texture size for the whole session.
#[derive(Clone, Copy, Debug, PartialEq, Eq, Structural)]
pub struct Geometry {
    pub width: u32,
    pub height: u32,
}

impl Geometry {
    /// The exact byte length of a raw frame of this geometry.
    pub open spec fn spec_buffer_len(&self) -> int {
        self.width * self.height * BYTES_PER_PIXEL
    }

    /// A geometry is representable when a frame of it fits in memory.
    pub open spec fn wf(&self) -> bool {
        self.spec_buffer_len() <= usize::MAX
    }

    /// The byte length a raw frame of this geometry must have.
    pub fn buffer_len(&self) -> (r: usize)
        requires
            self.wf(),
        ensures
            r == self.spec_buffer_len(),
    {
        proof {
            assert(self.width * self.height * BYTES_PER_PIXEL >= 0) by (nonlinear_arith);
        }
        (self.width as usize) * (self.height as usize) * (BYTES_PER_PIXEL as usize)
    }
}

/// One captured frame: pixel data in the capture source's native channel
/// order. Transient; it lives only for the duration of a single tick.
pub struct CapturedFrame {
    pub width: u32,
    pub height: u32,
    pub pixel_bytes: Vec<u8>,
}

impl CapturedFrame {
    /// A frame is well formed when its buffer holds exactly
    /// `width * height * BYTES_PER_PIXEL` bytes.
    pub open spec fn wf(&self) -> bool {
        self.pixel_bytes@.len() == self.width * self.height * BYTES_PER_PIXEL
    }

    /// Checked conversion of a raw capture buffer into a frame: validates
    /// the buffer length against the geometry before reinterpreting it,
    /// and fails exactly when the length does not match.
    pub fn from_raw(geometry: &Geometry, pixel_bytes: Vec<u8>) -> (r: Result<
        CapturedFrame,
        CaptureFrameError,
    >)
        requires
            geometry.wf(),
        ensures
            r is Ok <==> pixel_bytes@.len() == geometry.spec_buffer_len(),
            r matches Ok(f) ==> {
                &&& f.wf()
                &&& f.width == geometry.width
                &&& f.height == geometry.height
                &&& f.pixel_bytes@ == pixel_bytes@
            },
            r matches Err(e) ==> e is BufferSizeMismatch,
    {
        let expected = geometry.buffer_len();
        if pixel_bytes.len() != expected {
            return Err(CaptureFrameError::BufferSizeMismatch);
        }
        Ok(CapturedFrame { width: geometry.width, height: geometry.height, pixel_bytes })
    }
}

} // verus!
