//! The error taxonomy of the rendering core.
//!
//! Every failure propagates to the caller as a typed result; there is no
//! process-level fatal abort path in this core. The one locally recovered
//! failure is a fill with an unknown bitmap handle, which is skipped and
//! recorded as a diagnostic on the render target.

use vstd::prelude::*;

verus! {

/// A failure reported by the underlying platform engine, carried as the
/// engine's numeric status code (for instance an HRESULT). The platform
/// shell converts its native error type into this value.
#[derive(Clone, Copy, Debug, PartialEq, Eq, Structural)]
pub struct PittoreEngineError {
    /// The engine's numeric status code.
    pub code: i32,
}

/// An error that occurred whilst creating the backend.
#[derive(Clone, Copy, Debug, PartialEq, Eq, Structural)]
pub enum PittoreInstantiationError {
    /// No backend supports the current environment or operating system.
    UnsupportedSystem,
    /// The platform engine failed to construct its factory.
    FactoryCreationFailure(PittoreEngineError),
}

/// An error that occurred whilst rendering, or beginning a render pass.
#[derive(Clone, Copy, Debug, PartialEq, Eq, Structural)]
pub enum PittoreRenderError {
    /// A render pass has already started on this render target.
    RenderTargetAlreadyInUse,
    /// The platform engine failed to draw or to present the frame.
    EngineError(PittoreEngineError),
}

/// An error that occurred whilst resizing a render target.
#[derive(Clone, Copy, Debug, PartialEq, Eq, Structural)]
pub enum PittoreResizeError {
    /// The new dimensions for resizing the render target are invalid.
    InvalidResizeDimensions,
    /// The platform engine failed to resize its surface.
    EngineError(PittoreEngineError),
}

/// An error that occurred whilst attaching to a window.
#[derive(Clone, Copy, Debug, PartialEq, Eq, Structural)]
pub enum PittoreWindowAttachmentError {
    /// The backend doesn't support attaching to this window handle type.
    UnsupportedWindowHandle,
    /// The platform engine failed to create a surface for the window.
    SurfaceCreationFailure(PittoreEngineError),
}

/// An error that occurred whilst loading a bitmap into a render target.
#[derive(Clone, Copy, Debug, PartialEq, Eq, Structural)]
pub enum PittoreBitmapLoadError {
    /// The file could not be opened or read.
    FileAccessFailure,
    /// The file was read but its format is not supported by the decoder.
    UnsupportedImageFormat,
    /// The decoder failed on the file's contents.
    DecodeFailure,
    /// The platform engine failed to build a paint resource from the
    /// decoded pixels.
    ResourceCreationFailure(PittoreEngineError),
}

} // verus!
