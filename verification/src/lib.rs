//! A backend-agnostic 2D rendering abstraction.
//!
//! Application code builds a [`PittoreContext`], attaches it to a drawing
//! surface to obtain a [`PittoreRenderTarget`], and issues drawing commands
//! (clear, fill shapes with a solid color or a cached bitmap) inside
//! serialized render passes.
//!
//! The core of the crate is the render-target concurrency and resource-cache
//! model: at most one render pass is active per target at any time, a cache
//! maps opaque bitmap handles to backend-resident resources, and the
//! color/shape/material data model is shared across backends. Platform
//! engines (window handles, rasterizers, image decoders) live outside this
//! crate and are driven through plain values.

use vstd::prelude::*;

pub mod cache;
pub mod color;
pub mod error;
pub mod material;
pub mod render_pass;
pub mod render_target;
pub mod shape;

pub use crate::color::PittoreColor;
pub use crate::error::PittoreBitmapLoadError;
pub use crate::error::PittoreEngineError;
pub use crate::error::PittoreInstantiationError;
pub use crate::error::PittoreRenderError;
pub use crate::error::PittoreResizeError;
pub use crate::error::PittoreWindowAttachmentError;
pub use crate::material::PittoreBitmap;
pub use crate::material::PittoreMaterial;
pub use crate::render_pass::PittoreDrawOp;
pub use crate::render_pass::PittoreRenderPass;
pub use crate::render_target::PittoreDecodedImage;
pub use crate::render_target::PittoreDrawCall;
pub use crate::render_target::PittoreRenderTarget;
pub use crate::render_target::RenderTargetState;
pub use crate::shape::PittorePoint;
pub use crate::shape::PittoreRect;
pub use crate::shape::PittoreShape;
pub use crate::shape::PittoreSize;

verus! {

/// The namespace under which the recording engine issues bitmap handles.
/// Handles from another namespace are never valid on a recording target.
pub const RECORDING_NAMESPACE: u64 = 0xEC0;

/// The process-facing entry point: holds the one backend instance and
/// attaches render targets to drawing surfaces. Cheap to copy; every copy
/// shares the same stateless engine.
#[derive(Clone, Copy, Debug)]
pub struct PittoreContext {
    debug: bool,
}

impl PittoreContext {
    /// The debug flag the context was built with.
    pub closed spec fn spec_debug(self) -> bool {
        self.debug
    }

    /// Returns the debug flag the context was built with.
    pub fn debug(&self) -> (r: bool)
        ensures
            r == self.spec_debug(),
    {
        self.debug
    }

    /// Attaches a render target to a drawing surface of the given current
    /// physical pixel dimensions.
    ///
    /// The platform shell extracts the dimensions from its window handle
    /// and hands them in as plain values; on success the returned target's
    /// surface is sized to them, its cache is empty and its handle counter
    /// starts at 0. The recording engine accepts every surface, so the
    /// call always succeeds; platform engines report their own
    /// `PittoreWindowAttachmentError` through the same result type.
    pub fn attach_to_surface(&self, width: u32, height: u32) -> (r: Result<
        PittoreRenderTarget,
        PittoreWindowAttachmentError,
    >)
        ensures
            r matches Ok(t) && t@ == crate::render_target::fresh_render_target(
                RECORDING_NAMESPACE,
                width,
                height,
            ),
    {
        Ok(crate::render_target::PittoreRenderTarget::new(RECORDING_NAMESPACE, width, height))
    }
}

/// Configuration for building a [`PittoreContext`].
pub struct PittoreContextBuilder {
    debug: bool,
}

impl PittoreContextBuilder {
    /// The debug flag this builder will hand to the context.
    pub closed spec fn spec_debug(self) -> bool {
        self.debug
    }

    /// Creates a builder with the debug flag off.
    pub fn new() -> (r: Self)
        ensures
            r.spec_debug() == false,
    {
        PittoreContextBuilder { debug: false }
    }

    /// Enable or disable the debug flag.
    pub fn with_debug(self, debug: bool) -> (r: Self)
        ensures
            r.spec_debug() == debug,
    {
        PittoreContextBuilder { debug }
    }

    /// Builds the context over the engine available to this crate: the
    /// recording engine, which is supported on every system. Platform
    /// shells that select a native engine report `UnsupportedSystem` or a
    /// factory failure through the same result type.
    pub fn build(self) -> (r: Result<PittoreContext, PittoreInstantiationError>)
        ensures
            r matches Ok(c) && c.spec_debug() == self.spec_debug(),
    {
        Ok(PittoreContext { debug: self.debug })
    }
}

impl Default for PittoreContextBuilder {
    fn default() -> (r: Self)
        ensures
            r.spec_debug() == false,
    {
        PittoreContextBuilder { debug: false }
    }
}

} // verus!
