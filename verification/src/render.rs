//! Texture upload and draw sizing. The GPU texture built each tick must
//! have exactly the session geometry fixed at startup; a frame of any
//! other size is rejected rather than silently resizing the stream. The
//! static full-viewport quad the draw call uses is computed here as well.

use vstd::prelude::*;
use crate::errors::RenderFrameError;
use crate::frame::CapturedFrame;
use crate::frame::Geometry;

verus! {

/// The size of the texture one tick uploads and draws.
#[derive(Clone, Copy, Debug, PartialEq, Eq, Structural)]
pub struct TextureSpec {
    pub width: u32,
    pub height: u32,
}

/// Size the texture upload for one tick. Succeeds exactly when the frame
/// has the session geometry, and the resulting texture size is that
/// geometry — the size used for every upload and draw of the session.
pub fn texture_spec_for(geometry: &Geometry, frame: &CapturedFrame) -> (r: Result<
    TextureSpec,
    RenderFrameError,
>)
    ensures
        r is Ok <==> (frame.width == geometry.width && frame.height == geometry.height),
        r matches Ok(t) ==> t.width == geometry.width && t.height == geometry.height,
        r matches Err(e) ==> e is GeometryMismatch,
{
    if frame.width == geometry.width && frame.height == geometry.height {
        Ok(TextureSpec { width: geometry.width, height: geometry.height })
    } else {
        Err(RenderFrameError::GeometryMismatch)
    }
}

/// The four vertices of the full-viewport triangle strip, in normalized
/// device coordinates: two triangles spanning the whole square.
pub fn quad_strip_positions() -> (r: Vec<(i8, i8)>)
    ensures
        r@.len() == 4,
        r@[0] == (-1i8, 1i8),
        r@[1] == (1i8, 1i8),
        r@[2] == (-1i8, -1i8),
        r@[3] == (1i8, -1i8),
{
    let mut v: Vec<(i8, i8)> = Vec::new();
    v.push((-1, 1));
    v.push((1, 1));
    v.push((-1, -1));
    v.push((1, -1));
    v
}

/// The name of the sampler uniform the fragment stage reads the frame's
/// texture through.
pub fn texture_sampler_name() -> (r: &'static str)
    ensures
        r@ == "tex"@,
{
    "tex"
}

} // verus!
