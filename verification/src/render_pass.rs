//! The drawing surface exposed during one render pass.

use vstd::prelude::*;

use crate::color::PittoreColor;
use crate::material::PittoreMaterial;
use crate::shape::PittoreShape;

verus! {

/// One drawing operation issued inside a render pass.
#[derive(Clone, Copy, Debug, PartialEq, Eq, Structural)]
pub enum PittoreDrawOp {
    /// Fill the entire surface with the color, discarding prior contents.
    Clear(PittoreColor),
    /// Paint the shape with the material, compositing over the current
    /// surface state.
    Fill(PittoreMaterial, PittoreShape),
}

/// A render pass: one bounded sequence of draw operations between a frame
/// begin and its finalize step.
///
/// A pass is constructed by `PittoreRenderTarget::begin_render_pass` and
/// consumed by `PittoreRenderTarget::end_render_pass`; it is valid only for
/// that one exchange. Operations issued on the pass are buffered in order
/// and take effect on the target's surface atomically when the pass is
/// finalized, so no partial frame is ever visible outside the pass.
///
/// The view of a pass is the sequence of operations issued on it so far.
pub struct PittoreRenderPass {
    ops: Vec<PittoreDrawOp>,
}

impl View for PittoreRenderPass {
    type V = Seq<PittoreDrawOp>;

    closed spec fn view(&self) -> Seq<PittoreDrawOp> {
        self.ops@
    }
}

impl PittoreRenderPass {
    /// Opens a pass with no operations issued yet.
    pub(crate) fn begin() -> (r: Self)
        ensures
            r@.len() == 0,
    {
        PittoreRenderPass { ops: Vec::new() }
    }

    /// Fills the entire surface with the given color, discarding prior
    /// contents. Always legal, in particular as the first operation of a
    /// pass.
    pub fn clear(&mut self, color: PittoreColor)
        ensures
            final(self)@ == old(self)@.push(PittoreDrawOp::Clear(color)),
    {
        self.ops.push(PittoreDrawOp::Clear(color));
    }

    /// Paints `shape` using `material`, compositing over the current
    /// surface state.
    ///
    /// A bitmap material whose handle the target never issued does not
    /// abort the pass: when the pass is finalized that single operation is
    /// skipped and a diagnostic is recorded on the target.
    pub fn fill(&mut self, material: PittoreMaterial, shape: PittoreShape)
        ensures
            final(self)@ == old(self)@.push(PittoreDrawOp::Fill(material, shape)),
    {
        self.ops.push(PittoreDrawOp::Fill(material, shape));
    }

    /// Hands the buffered operations over to the target that finalizes the
    /// pass.
    pub(crate) fn into_ops(self) -> (r: Vec<PittoreDrawOp>)
        ensures
            r@ == self@,
    {
        self.ops
    }
}

} // verus!
