//! The presentation target's state and the resize rule: when the frame
//! loop may draw, and what a resize does to that.

use vstd::prelude::*;

verus! {

/// What the frame loop knows about the presentation target: its extent and
/// whether a surface configured to that extent is ready to draw to.
#[derive(Clone, Copy, PartialEq, Eq, Structural, Debug)]
pub struct SurfaceState {
    /// Target width in pixels.
    pub width: u32,
    /// Target height in pixels.
    pub height: u32,
    /// Whether the surface is configured and drawing may proceed.
    pub configured: bool,
}

impl SurfaceState {
    /// A configured surface always has a non-zero extent.
    pub open spec fn wf(&self) -> bool {
        self.configured ==> self.width > 0 && self.height > 0
    }

    /// The initial state for a window of the given extent: not yet
    /// configured, so no draw is issued before the first resize commits an
    /// extent.
    pub fn new(width: u32, height: u32) -> (state: SurfaceState)
        ensures
            state.width == width,
            state.height == height,
            !state.configured,
            state.wf(),
    {
        SurfaceState { width, height, configured: false }
    }

    /// The state after a resize to `width × height`: a non-zero extent is
    /// adopted and the surface counts as configured; a zero extent is
    /// rejected — the old extent stays and drawing is suspended until a
    /// later non-zero resize.
    pub open spec fn resize_spec(self, width: u32, height: u32) -> SurfaceState {
        if width > 0 && height > 0 {
            SurfaceState { width, height, configured: true }
        } else {
            SurfaceState { configured: false, ..self }
        }
    }

    /// Apply a resize event. Never fails, whatever the extent.
    pub fn resize(&mut self, width: u32, height: u32)
        ensures
            *final(self) == old(self).resize_spec(width, height),
            final(self).wf(),
    {
        if width > 0 && height > 0 {
            self.width = width;
            self.height = height;
            self.configured = true;
        } else {
            self.configured = false;
        }
    }

    /// Whether the frame's draw may be issued.
    pub fn should_draw(&self) -> (draw: bool)
        ensures
            draw == self.configured,
    {
        self.configured
    }
}

/// Suspension law of the presentation target: a resize with a zero
/// dimension leaves drawing suspended, and only a later resize with both
/// dimensions non-zero makes drawing possible again.
pub proof fn lemma_zero_resize_suspends(state: SurfaceState, width: u32, height: u32)
    ensures
        width == 0 || height == 0 ==> !state.resize_spec(width, height).configured,
        width > 0 && height > 0 ==> state.resize_spec(width, height).configured,
{
}

} // verus!
