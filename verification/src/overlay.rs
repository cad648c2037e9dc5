//! The overlay compositor.
//!
//! Once per displayed video frame it correlates the frame's own timestamp
//! with the most recently cached metadata record, renders the comparison as
//! a two-line text, and packages a cleared off-screen pixel buffer sized to
//! the current display surface — plus the full-frame placement and the text
//! — into a compositing instruction for the display stage. Glyph shaping
//! and rasterization are an external collaborator's work; this component
//! owns the timing-correlation text, the buffer lifecycle and the layout
//! arithmetic. The surface dimensions are cached from a "dimensions
//! changed" notification, and the pixel buffer is made afresh for the
//! dimensions current at each invocation.

use crate::error::PipelineError;
use crate::store::MetadataRecord;
use crate::timestamp::{format_timestamp, timestamp_text, Timestamp};
use vstd::prelude::*;
use vstd::string::StringExecFns;

verus! {

/// The largest surface side the compositor accepts; keeps the pixel
/// buffer's byte length inside `usize` on every target.
pub const MAX_SURFACE_SIDE: u32 = 16384;

/// The display surface's current geometry.
#[derive(Clone, Copy, PartialEq, Eq, Structural, Debug)]
pub struct SurfaceDims {
    pub width: u32,
    pub height: u32,
}

/// A usable geometry: neither side zero nor beyond the machine limit.
pub open spec fn dims_wf(d: SurfaceDims) -> bool {
    0 < d.width <= MAX_SURFACE_SIDE && 0 < d.height <= MAX_SURFACE_SIDE
}

/// An off-screen pixel canvas, four bytes per pixel.
#[derive(Debug)]
pub struct PixelBuffer {
    pub width: u32,
    pub height: u32,
    pub data: Vec<u8>,
}

impl PixelBuffer {
    /// The byte store matches the geometry.
    pub open spec fn wf(self) -> bool {
        self.data@.len() == self.width * self.height * 4
    }
}

/// Allocates a cleared canvas for the given geometry.
fn alloc_pixel_buffer(d: SurfaceDims) -> (b: PixelBuffer)
    requires
        dims_wf(d),
    ensures
        b.wf(),
        b.width == d.width,
        b.height == d.height,
        forall|i: int| 0 <= i < b.data@.len() ==> b.data@[i] == 0,
{
    proof {
        assert(d.width * d.height * 4 <= 16384 * 16384 * 4) by (nonlinear_arith)
            requires
                0 < d.width <= 16384,
                0 < d.height <= 16384,
        ;
    }
    let n: usize = (d.width as usize) * (d.height as usize) * 4;
    let mut data: Vec<u8> = Vec::new();
    let mut i: usize = 0;
    while i < n
        invariant
            i <= n,
            data@.len() == i,
            forall|j: int| 0 <= j < data@.len() ==> data@[j] == 0,
        decreases n - i,
    {
        data.push(0);
        i = i + 1;
    }
    PixelBuffer { width: d.width, height: d.height, data }
}

/// The overlay's two-line correlation text: the displayed frame's own
/// timestamp, then the most recently cached metadata timestamp, or
/// `not available` when no record was ever published.
pub open spec fn overlay_text(frame_ts: Timestamp, latest: Option<Timestamp>) -> Seq<char> {
    "frame time: "@ + timestamp_text(frame_ts) + "\n  klv time: "@ + (match latest {
        None => "not available"@,
        Some(t) => timestamp_text(t),
    })
}

/// Builds the overlay's correlation text.
pub fn render_overlay_text(frame_ts: Timestamp, latest: Option<&MetadataRecord>) -> (r: String)
    ensures
        r@ == overlay_text(
            frame_ts,
            match latest {
                None => None,
                Some(rec) => Some(rec.ts),
            },
        ),
{
    let mut s = String::from_str("frame time: ");
    let frame_part = format_timestamp(frame_ts);
    s.append(frame_part.as_str());
    s.append("\n  klv time: ");
    match latest {
        None => s.append("not available"),
        Some(rec) => {
            let klv_part = format_timestamp(rec.ts);
            s.append(klv_part.as_str());
        },
    }
    s
}

/// Where the text renderer anchors the text inside the canvas: centered
/// horizontally for the measured text width, and an eighth of the surface
/// height above the vertical center. Recomputed from whatever geometry is
/// current, so a dimension change moves every subsequent placement.
pub fn text_anchor(d: SurfaceDims, text_width: u32) -> (a: (i64, i64))
    ensures
        a.0 == d.width as int / 2 - text_width as int / 2,
        a.1 == d.height as int / 2 - d.height as int / 8,
{
    let x: i64 = (d.width as i64) / 2 - (text_width as i64) / 2;
    let y: i64 = (d.height as i64) / 2 - (d.height as i64) / 8;
    (x, y)
}

/// One renderable unit for the display stage: the cleared canvas the text
/// is rasterized into, its placement over the video frame, and the text.
#[derive(Debug)]
pub struct CompositingInstruction {
    pub buffer: PixelBuffer,
    pub origin_x: u32,
    pub origin_y: u32,
    pub text: String,
}

/// The overlay compositor's cached state: the surface geometry from the
/// most recent "dimensions changed" notification.
pub struct OverlayCompositor {
    dims: Option<SurfaceDims>,
}

impl OverlayCompositor {
    /// The cached geometry, if any notification arrived yet.
    pub closed spec fn cached_dims(self) -> Option<SurfaceDims> {
        self.dims
    }

    /// Whatever geometry is cached came from a notification and is usable.
    pub open spec fn wf(self) -> bool {
        match self.cached_dims() {
            None => true,
            Some(d) => dims_wf(d),
        }
    }

    /// A compositor that has not yet been told the surface geometry.
    pub fn new() -> (r: OverlayCompositor)
        ensures
            r.wf(),
            r.cached_dims() is None,
    {
        OverlayCompositor { dims: None }
    }

    /// Caches the geometry from a "surface dimensions changed"
    /// notification; it governs every subsequent composition.
    pub fn set_dimensions(&mut self, width: u32, height: u32)
        requires
            0 < width <= MAX_SURFACE_SIDE,
            0 < height <= MAX_SURFACE_SIDE,
        ensures
            final(self).wf(),
            final(self).cached_dims() == Some(SurfaceDims { width, height }),
    {
        self.dims = Some(SurfaceDims { width, height });
    }

    /// Composes the overlay for one displayed frame: a fresh cleared
    /// canvas sized to the current geometry, placed full-frame at the
    /// origin, with the correlation text for the frame's timestamp and the
    /// most recently published metadata record. Fails only when no
    /// geometry notification has arrived yet.
    pub fn compose(&self, frame_ts: Timestamp, latest: Option<&MetadataRecord>) -> (r: Result<
        CompositingInstruction,
        PipelineError,
    >)
        requires
            self.wf(),
        ensures
            (match r {
                Ok(ins) => {
                    &&& self.cached_dims() matches Some(d)
                    &&& ins.buffer.wf()
                    &&& ins.buffer.width == self.cached_dims().unwrap().width
                    &&& ins.buffer.height == self.cached_dims().unwrap().height
                    &&& forall|i: int| 0 <= i < ins.buffer.data@.len() ==> ins.buffer.data@[i] == 0
                    &&& ins.origin_x == 0
                    &&& ins.origin_y == 0
                    &&& ins.text@ == overlay_text(
                        frame_ts,
                        match latest {
                            None => None,
                            Some(rec) => Some(rec.ts),
                        },
                    )
                },
                Err(e) => self.cached_dims() is None && e matches PipelineError::SetupFailure {
                    ..
                },
            }),
            r is Ok <==> self.cached_dims() is Some,
    {
        match &self.dims {
            None => Err(
                PipelineError::SetupFailure { component: String::from_str("overlay surface") },
            ),
            Some(d) => {
                let buffer = alloc_pixel_buffer(*d);
                let text = render_overlay_text(frame_ts, latest);
                Ok(CompositingInstruction { buffer, origin_x: 0, origin_y: 0, text })
            },
        }
    }
}

} // verus!
