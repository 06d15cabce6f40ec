//! Error taxonomy of the rendering pipeline.
//!
//! Every failure is fatal to the frame loop: startup failures (no
//! adapter, unusable surface, missing shader stage, failed upload
//! allocation) are reported once and the process exits; a presentation
//! loss propagates out of the frame loop unrecovered.

use vstd::prelude::*;

verus! {

/// Why a rendering operation failed.
#[derive(Clone, Copy, PartialEq, Eq, Structural, Debug)]
pub enum RenderError {
    /// No hardware adapter supports the required feature level.
    NoSuitableAdapter,
    /// The presentation engine cannot create a buffer chain for the window.
    PresentationUnsupported,
    /// The surface was invalidated externally (for example, device removal).
    PresentLost,
    /// Command recording was attempted before the fence confirmed that the
    /// previous use of the command buffer completed on the GPU.
    RecordingError,
    /// The one-time vertex upload buffer could not be allocated.
    AllocationError,
    /// A required precompiled shader stage is absent.
    MissingShader,
}

} // verus!
