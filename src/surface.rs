use vstd::prelude::*;
use crate::error::VeilError;

verus! {

/// The GPU viewport rectangle: origin and extent, in pixels.
#[derive(Clone, Copy, Debug, PartialEq, Eq, Structural)]
pub struct Viewport {
    pub x: u32,
    pub y: u32,
    pub width: u32,
    pub height: u32,
}

/// The viewport that covers a whole `width` by `height` back buffer.
pub open spec fn full_viewport(width: u32, height: u32) -> Viewport {
    Viewport { x: 0, y: 0, width, height }
}

/// The size of the presentable back buffer and the viewport drawn into it.
#[derive(Clone, Copy, Debug, PartialEq, Eq, Structural)]
pub struct SurfaceState {
    pub width: u32,
    pub height: u32,
    pub viewport: Viewport,
}

/// The state after a resize notification: a degenerate size (either dimension
/// zero, as when the window is minimized) is ignored; any other size becomes
/// the back buffer's size and the viewport covers it.
pub open spec fn resized(s: SurfaceState, width: u32, height: u32) -> SurfaceState {
    if width > 0 && height > 0 {
        SurfaceState { width, height, viewport: full_viewport(width, height) }
    } else {
        s
    }
}

impl SurfaceState {
    /// A surface is never zero-sized, and its viewport always covers it.
    pub open spec fn wf(&self) -> bool {
        &&& self.width > 0
        &&& self.height > 0
        &&& self.viewport == full_viewport(self.width, self.height)
    }

    /// Sizes a new surface to the window's client area; a degenerate size fails
    /// fast instead of producing an unusable surface.
    pub fn create(width: u32, height: u32) -> (r: Result<SurfaceState, VeilError>)
        ensures
            (width > 0 && height > 0) <==> r is Ok,
            r is Ok ==> r->Ok_0.wf() && r->Ok_0.width == width && r->Ok_0.height == height,
            r is Err ==> r->Err_0 is SurfaceCreation,
    {
        if width > 0 && height > 0 {
            Ok(SurfaceState { width, height, viewport: Viewport { x: 0, y: 0, width, height } })
        } else {
            Err(VeilError::SurfaceCreation {
                detail: String::from_str("window client area has a zero dimension"),
            })
        }
    }

    /// Applies a resize notification. Returns whether the back buffer and the
    /// viewport must change; a degenerate size changes nothing.
    pub fn resize(&mut self, width: u32, height: u32) -> (applied: bool)
        requires
            old(self).wf(),
        ensures
            final(self).wf(),
            *final(self) == resized(*old(self), width, height),
            applied == (width > 0 && height > 0),
            applied ==> final(self).viewport == (Viewport { x: 0, y: 0, width, height }),
    {
        if width > 0 && height > 0 {
            self.width = width;
            self.height = height;
            self.viewport = Viewport { x: 0, y: 0, width, height };
            true
        } else {
            false
        }
    }
}

/// Resizing is idempotent: a second identical notification changes nothing.
pub proof fn lemma_resize_idempotent(s: SurfaceState, width: u32, height: u32)
    requires
        s.wf(),
    ensures
        resized(resized(s, width, height), width, height) == resized(s, width, height),
        resized(s, width, height).wf(),
{
}

/// A notification with a zero dimension leaves the size and the viewport as
/// they were, whatever the other dimension.
pub proof fn lemma_degenerate_resize_is_noop(s: SurfaceState, width: u32, height: u32)
    requires
        s.wf(),
        width == 0 || height == 0,
    ensures
        resized(s, width, height) == s,
{
}

/// Any non-degenerate size is accepted as it stands, and afterwards the
/// viewport is exactly `(0, 0, width, height)`.
pub proof fn lemma_resize_sets_viewport(s: SurfaceState, width: u32, height: u32)
    requires
        s.wf(),
        width > 0,
        height > 0,
    ensures
        resized(s, width, height).width == width,
        resized(s, width, height).height == height,
        resized(s, width, height).viewport == (Viewport { x: 0, y: 0, width, height }),
        resized(s, width, height).wf(),
{
}

} // verus!
