//! The presentation surface: a double-buffered chain of render targets
//! bound to one window.
//!
//! The presentation engine owns the back-buffer index and is free to
//! reorder buffer availability, so the index is always queried from the
//! engine immediately after each present — never computed locally. The
//! model keeps the engine's side of the protocol (its current index and
//! whether the surface has been invalidated externally) as plain fields
//! of the surface, mirroring how the buffer chain object both presents
//! and reports.

use vstd::prelude::*;
use crate::error::RenderError;

verus! {

/// Number of images in the buffer chain: one presented, one rendered into.
pub const FRAME_COUNT: u32 = 2;

/// What the windowing collaborator reports of the target window at
/// bind time: its physical pixel dimensions.
#[derive(Clone, Copy, PartialEq, Eq, Structural, Debug)]
pub struct WindowInfo {
    /// Physical pixel width of the window's client area.
    pub width: u32,
    /// Physical pixel height of the window's client area.
    pub height: u32,
}

/// A bound presentation surface: two buffers sized to the window, each
/// with a render-target view, plus the engine's reported state.
#[derive(Clone, Copy, PartialEq, Eq, Structural, Debug)]
pub struct FrameSurface {
    /// Width, in physical pixels, of each buffer.
    pub width: u32,
    /// Height, in physical pixels, of each buffer.
    pub height: u32,
    /// The presentation engine's current back-buffer index.
    pub engine_index: u32,
    /// The surface was invalidated externally (for example, the device
    /// was removed); every later present fails.
    pub lost: bool,
}

impl FrameSurface {
    /// The engine's index always names one of the two buffers, and the
    /// buffers have the nonzero extent the chain was created with.
    pub open spec fn wf(self) -> bool {
        &&& self.engine_index < FRAME_COUNT
        &&& self.width > 0
        &&& self.height > 0
    }

    /// Create a buffer chain of exactly [`FRAME_COUNT`] images sized to
    /// the window's physical pixel dimensions. The engine cannot build
    /// a chain with a zero extent, so binding fails with
    /// `PresentationUnsupported` exactly when either dimension is zero.
    /// Fullscreen exclusive mode is deliberately unsupported: the chain
    /// is created for windowed composition only.
    pub fn bind(window: &WindowInfo) -> (r: Result<FrameSurface, RenderError>)
        ensures
            match r {
                Ok(s) => {
                    &&& window.width > 0
                    &&& window.height > 0
                    &&& s.width == window.width
                    &&& s.height == window.height
                    &&& s.engine_index == 0
                    &&& !s.lost
                    &&& s.wf()
                },
                Err(e) => {
                    &&& e == RenderError::PresentationUnsupported
                    &&& (window.width == 0 || window.height == 0)
                },
            },
    {
        if window.width == 0 || window.height == 0 {
            Err(RenderError::PresentationUnsupported)
        } else {
            Ok(FrameSurface { width: window.width, height: window.height, engine_index: 0, lost: false })
        }
    }

    /// Query the engine for the current back-buffer index. The caller
    /// must re-query after every present instead of caching: the answer
    /// is whatever the engine reports right now.
    pub fn current_index(&self) -> (i: u32)
        ensures
            i == self.engine_index,
    {
        self.engine_index
    }

    /// Present the rendered buffer, waiting `sync_interval` vertical
    /// blanks. On success the engine flips to the other buffer of the
    /// pair; once the surface is lost, presentation fails with
    /// `PresentLost` and nothing changes.
    pub fn present(&mut self, sync_interval: u32) -> (r: Result<(), RenderError>)
        requires
            old(self).wf(),
        ensures
            final(self).wf(),
            final(self).width == old(self).width,
            final(self).height == old(self).height,
            final(self).lost == old(self).lost,
            match r {
                Ok(()) => {
                    &&& !old(self).lost
                    &&& final(self).engine_index == 1 - old(self).engine_index
                },
                Err(e) => {
                    &&& e == RenderError::PresentLost
                    &&& old(self).lost
                    &&& final(self).engine_index == old(self).engine_index
                },
            },
    {
        if self.lost {
            Err(RenderError::PresentLost)
        } else {
            self.engine_index = 1 - self.engine_index;
            Ok(())
        }
    }

    /// The outside world invalidates the surface, as a device removal
    /// would; used to drive the loss path without a device.
    pub fn invalidate(&mut self)
        ensures
            final(self).lost,
            final(self).width == old(self).width,
            final(self).height == old(self).height,
            final(self).engine_index == old(self).engine_index,
    {
        self.lost = true;
    }
}

} // verus!
