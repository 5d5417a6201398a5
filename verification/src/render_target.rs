//! The render target: owner of one drawing surface, of the bitmap cache and
//! of the bitmap-id counter, and the component that serializes render
//! passes.
//!
//! This target records the draw calls of each finalized pass on its surface
//! instead of rasterizing them, which makes every frame's outcome a plain
//! value: platform engines replay the recorded operations against their
//! native surfaces, and tests inspect them directly.

use vstd::prelude::*;

use crate::cache::cache_empty;
use crate::cache::cache_entries;
use crate::cache::cache_insert;
use crate::cache::cache_lookup;
use crate::cache::cache_new;
use crate::color::PittoreColor;
use crate::error::PittoreBitmapLoadError;
use crate::error::PittoreRenderError;
use crate::error::PittoreResizeError;
use crate::material::PittoreBitmap;
use crate::material::PittoreMaterial;
use crate::render_pass::PittoreDrawOp;
use crate::render_pass::PittoreRenderPass;
use crate::shape::PittoreRect;
use crate::shape::PittoreShape;

verus! {

/// Decoded pixel data handed to the target by the image-decoding
/// collaborator: a fixed 32-bit-per-pixel layout of the given dimensions.
/// The pixel bytes themselves stay with the platform engine.
#[derive(Clone, Copy, Debug, PartialEq, Eq, Structural)]
pub struct PittoreDecodedImage {
    /// Width of the decoded image in pixels.
    pub width: u32,
    /// Height of the decoded image in pixels.
    pub height: u32,
}

/// The abstract state of a render target.
#[verifier::ext_equal]
pub struct RenderTargetState {
    /// The namespace under which this target issues bitmap handles.
    pub namespace: u64,
    /// The id the next issued bitmap handle will carry.
    pub next_bitmap_id: u64,
    /// The bitmap cache: each issued handle key maps to the resource token
    /// the backend holds for it.
    pub entries: Map<(u64, u64), u64>,
    /// Whether a render pass is currently active on this target.
    pub in_use: bool,
    /// Width of the surface in pixels.
    pub width: u32,
    /// Height of the surface in pixels.
    pub height: u32,
    /// The operations currently composited on the surface, oldest first,
    /// starting from the most recent clear.
    pub surface: Seq<PittoreDrawOp>,
    /// The handles of the fills skipped because the target never issued
    /// them, oldest first.
    pub diagnostics: Seq<PittoreBitmap>,
}

impl RenderTargetState {
    /// Well-formedness: every cached entry was issued by this target — its
    /// key carries the target's namespace and an id below the counter, and
    /// it maps to its own id as resource token.
    pub open spec fn wf(self) -> bool {
        forall|k: (u64, u64)| #[trigger]
            self.entries.dom().contains(k) ==> k.0 == self.namespace && k.1 < self.next_bitmap_id
                && self.entries[k] == k.1
    }

    /// Replayability: every operation composited on the surface still takes
    /// effect against the cache — the handle of every recorded bitmap fill
    /// is cached, so a platform engine can replay the whole frame.
    pub open spec fn replayable(self) -> bool {
        forall|i: int|
            0 <= i < self.surface.len() ==> op_applies(self.entries, #[trigger] self.surface[i])
    }
}

/// The state of a freshly attached render target: nothing issued, nothing
/// drawn, no pass active.
pub open spec fn fresh_render_target(namespace: u64, width: u32, height: u32) -> RenderTargetState {
    RenderTargetState {
        namespace,
        next_bitmap_id: 0,
        entries: cache_empty(),
        in_use: false,
        width,
        height,
        surface: Seq::empty(),
        diagnostics: Seq::empty(),
    }
}

/// Whether a draw operation takes effect against the given cache contents:
/// a clear or a solid-color fill always does, a bitmap fill only when the
/// cache holds its handle.
pub open spec fn op_applies(entries: Map<(u64, u64), u64>, op: PittoreDrawOp) -> bool {
    match op {
        PittoreDrawOp::Fill(PittoreMaterial::Bitmap(h), _) => entries.dom().contains(
            (h.spec_namespace(), h.spec_id()),
        ),
        _ => true,
    }
}

/// The surface after one applying operation: a clear discards all prior
/// contents, a fill composites over them.
pub open spec fn apply_op(surface: Seq<PittoreDrawOp>, op: PittoreDrawOp) -> Seq<PittoreDrawOp> {
    match op {
        PittoreDrawOp::Clear(_) => seq![op],
        PittoreDrawOp::Fill(_, _) => surface.push(op),
    }
}

/// The surface after a whole pass: each operation is applied in issued
/// order, and a bitmap fill whose handle the cache does not hold is
/// skipped.
pub open spec fn apply_ops(
    surface: Seq<PittoreDrawOp>,
    ops: Seq<PittoreDrawOp>,
    entries: Map<(u64, u64), u64>,
) -> Seq<PittoreDrawOp>
    decreases ops.len(),
{
    if ops.len() == 0 {
        surface
    } else {
        let prefix = apply_ops(surface, ops.drop_last(), entries);
        if op_applies(entries, ops.last()) {
            apply_op(prefix, ops.last())
        } else {
            prefix
        }
    }
}

/// The handles of the operations of a pass that are skipped against the
/// given cache contents, in issued order: one diagnostic per skipped fill.
pub open spec fn skipped_fills(
    ops: Seq<PittoreDrawOp>,
    entries: Map<(u64, u64), u64>,
) -> Seq<PittoreBitmap>
    decreases ops.len(),
{
    if ops.len() == 0 {
        Seq::empty()
    } else {
        let prefix = skipped_fills(ops.drop_last(), entries);
        if op_applies(entries, ops.last()) {
            prefix
        } else {
            match ops.last() {
                PittoreDrawOp::Fill(PittoreMaterial::Bitmap(h), _) => prefix.push(h),
                _ => prefix,
            }
        }
    }
}

/// The engine call that replays one composited operation against a native
/// surface.
#[derive(Clone, Copy, Debug, PartialEq, Eq, Structural)]
pub enum PittoreDrawCall {
    /// Clear the whole surface with the color.
    ClearSurface(PittoreColor),
    /// Stretch-blit the cached bitmap with this resource token into the
    /// rectangle: the specialized path for rectangles painted with a
    /// bitmap, equivalent to brush-filling the rectangle with the bitmap's
    /// repeating pattern.
    StretchBlit(u64, PittoreRect),
    /// Fill the shape with the repeating-pattern brush of the cached bitmap
    /// with this resource token: the generic path, and the only one for
    /// ellipses.
    BitmapBrushFill(u64, PittoreShape),
    /// Fill the shape with a solid-color brush.
    SolidBrushFill(PittoreColor, PittoreShape),
}

/// The engine call for one operation against the given cache contents, or
/// nothing for a bitmap fill whose handle the cache does not hold.
pub open spec fn spec_draw_call(
    entries: Map<(u64, u64), u64>,
    op: PittoreDrawOp,
) -> Option<PittoreDrawCall> {
    match op {
        PittoreDrawOp::Clear(color) => Some(PittoreDrawCall::ClearSurface(color)),
        PittoreDrawOp::Fill(PittoreMaterial::Color(color), shape) => Some(
            PittoreDrawCall::SolidBrushFill(color, shape),
        ),
        PittoreDrawOp::Fill(PittoreMaterial::Bitmap(h), shape) => {
            if entries.dom().contains((h.spec_namespace(), h.spec_id())) {
                let token = entries[(h.spec_namespace(), h.spec_id())];
                match shape {
                    PittoreShape::Rectangle(rect) => Some(PittoreDrawCall::StretchBlit(token, rect)),
                    PittoreShape::Ellipse { .. } => Some(
                        PittoreDrawCall::BitmapBrushFill(token, shape),
                    ),
                }
            } else {
                None
            }
        },
    }
}

/// One successful bitmap load: the returned handle carries the target's
/// namespace and the counter's value, the counter moves up by one, the
/// cache gains exactly that handle, and nothing else changes.
pub open spec fn successful_load(
    pre: RenderTargetState,
    post: RenderTargetState,
    h: PittoreBitmap,
) -> bool {
    &&& h.spec_namespace() == pre.namespace
    &&& h.spec_id() == pre.next_bitmap_id
    &&& pre.next_bitmap_id < u64::MAX
    &&& post == (RenderTargetState {
        next_bitmap_id: (pre.next_bitmap_id + 1) as u64,
        entries: pre.entries.insert((pre.namespace, pre.next_bitmap_id), pre.next_bitmap_id),
        ..pre
    })
}

/// One failed bitmap load: the id is consumed — the counter moves up by one
/// and is never reused — but the cache and everything else stay as they
/// were.
pub open spec fn failed_load(pre: RenderTargetState, post: RenderTargetState) -> bool {
    &&& pre.next_bitmap_id < u64::MAX
    &&& post == (RenderTargetState {
        next_bitmap_id: (pre.next_bitmap_id + 1) as u64,
        ..pre
    })
}

/// A render target: owns exactly one drawing surface, a bitmap cache and a
/// monotonically increasing bitmap-id counter.
///
/// The surface is the target's exclusion domain: exactly one render pass
/// may be active at a time, enforced by a non-blocking, non-reentrant
/// acquisition in `begin_render_pass`. The view of a target is its
/// [`RenderTargetState`].
pub struct PittoreRenderTarget {
    namespace: u64,
    next_bitmap_id: u64,
    bitmaps: dashmap::DashMap<(u64, u64), u64>,
    in_use: bool,
    width: u32,
    height: u32,
    surface: Vec<PittoreDrawOp>,
    diagnostics: Vec<PittoreBitmap>,
}

impl View for PittoreRenderTarget {
    type V = RenderTargetState;

    closed spec fn view(&self) -> RenderTargetState {
        RenderTargetState {
            namespace: self.namespace,
            next_bitmap_id: self.next_bitmap_id,
            entries: cache_entries(self.bitmaps),
            in_use: self.in_use,
            width: self.width,
            height: self.height,
            surface: self.surface@,
            diagnostics: self.diagnostics@,
        }
    }
}

impl PittoreRenderTarget {
    /// Creates a target for a freshly attached surface of the given pixel
    /// dimensions, issuing handles under the given namespace.
    pub(crate) fn new(namespace: u64, width: u32, height: u32) -> (r: Self)
        ensures
            r@ == fresh_render_target(namespace, width, height),
            r@.wf(),
    {
        let r = PittoreRenderTarget {
            namespace,
            next_bitmap_id: 0,
            bitmaps: cache_new(),
            in_use: false,
            width,
            height,
            surface: Vec::new(),
            diagnostics: Vec::new(),
        };
        proof {
            assert(r@ =~= fresh_render_target(namespace, width, height));
        }
        r
    }

    /// Acquires exclusive, non-reentrant access to the drawing surface and
    /// opens a render pass.
    ///
    /// If a pass is already in progress on this target the call fails
    /// immediately with `RenderTargetAlreadyInUse`; it never blocks and
    /// never queues. On success the returned pass buffers the caller's draw
    /// operations until `end_render_pass` finalizes them.
    pub fn begin_render_pass(&mut self) -> (r: Result<PittoreRenderPass, PittoreRenderError>)
        ensures
            old(self)@.in_use ==> (r matches Err(e) && e
                == PittoreRenderError::RenderTargetAlreadyInUse),
            old(self)@.in_use ==> final(self)@ == old(self)@,
            !old(self)@.in_use ==> (r matches Ok(p) && p@.len() == 0),
            !old(self)@.in_use ==> final(self)@ == (RenderTargetState {
                in_use: true,
                ..old(self)@
            }),
    {
        if self.in_use {
            Err(PittoreRenderError::RenderTargetAlreadyInUse)
        } else {
            self.in_use = true;
            Ok(PittoreRenderPass::begin())
        }
    }

    /// Finalizes a render pass opened by `begin_render_pass` on this
    /// target: applies its operations to the surface in issued order,
    /// records one diagnostic for every fill whose bitmap handle this
    /// target never issued, and releases the surface.
    ///
    /// The frame takes effect atomically: either the error is reported
    /// before anything is applied, or every operation of the pass is
    /// accounted for. The recording engine's finalize step itself cannot
    /// fail, so the call returns `Ok` and the target stays usable.
    pub fn end_render_pass(&mut self, pass: PittoreRenderPass) -> (r: Result<
        (),
        PittoreRenderError,
    >)
        requires
            old(self)@.in_use,
        ensures
            r matches Ok(_),
            final(self)@ == (RenderTargetState {
                in_use: false,
                surface: apply_ops(old(self)@.surface, pass@, old(self)@.entries),
                diagnostics: old(self)@.diagnostics + skipped_fills(pass@, old(self)@.entries),
                ..old(self)@
            }),
            old(self)@.replayable() ==> final(self)@.replayable(),
    {
        proof {
            if old(self)@.replayable() {
                lemma_apply_ops_keeps_replayable(old(self)@.surface, pass@, old(self)@.entries);
            }
        }
        let ghost pass_ops = pass@;
        let ops = pass.into_ops();
        let mut i: usize = 0;
        while i < ops.len()
            invariant
                i <= ops@.len(),
                ops@ == pass_ops,
                self.namespace == old(self).namespace,
                self.next_bitmap_id == old(self).next_bitmap_id,
                self.bitmaps == old(self).bitmaps,
                self.in_use == old(self).in_use,
                self.width == old(self).width,
                self.height == old(self).height,
                self.surface@ == apply_ops(
                    old(self).surface@,
                    ops@.take(i as int),
                    cache_entries(old(self).bitmaps),
                ),
                self.diagnostics@ == old(self).diagnostics@ + skipped_fills(
                    ops@.take(i as int),
                    cache_entries(old(self).bitmaps),
                ),
            decreases ops@.len() - i,
        {
            let op = ops[i];
            proof {
                assert(ops@.take(i + 1 as int).drop_last() =~= ops@.take(i as int));
                assert(ops@.take(i + 1 as int).last() == ops@[i as int]);
            }
            match op {
                PittoreDrawOp::Clear(_) => {
                    self.surface.clear();
                    self.surface.push(op);
                    proof {
                        assert(self.surface@ =~= apply_op(
                            apply_ops(
                                old(self).surface@,
                                ops@.take(i as int),
                                cache_entries(old(self).bitmaps),
                            ),
                            op,
                        ));
                    }
                },
                PittoreDrawOp::Fill(PittoreMaterial::Color(_), _) => {
                    self.surface.push(op);
                },
                PittoreDrawOp::Fill(PittoreMaterial::Bitmap(h), _) => {
                    match cache_lookup(&self.bitmaps, h.namespace(), h.id()) {
                        Some(_token) => {
                            self.surface.push(op);
                        },
                        None => {
                            self.diagnostics.push(h);
                        },
                    }
                },
            }
            i = i + 1;
        }
        proof {
            assert(ops@.take(ops@.len() as int) =~= ops@);
        }
        self.in_use = false;
        proof {
            assert(final(self)@ =~= (RenderTargetState {
                in_use: false,
                surface: apply_ops(old(self)@.surface, pass_ops, old(self)@.entries),
                diagnostics: old(self)@.diagnostics + skipped_fills(pass_ops, old(self)@.entries),
                ..old(self)@
            }));
        }
        Ok(())
    }

    /// Registers one bitmap-load outcome handed back by the image-decoding
    /// collaborator.
    ///
    /// A successful decode consumes the next sequential id under this
    /// target's namespace, inserts the resource into the cache and returns
    /// the handle. A failed decode propagates the error; it still consumes
    /// an id — ids are monotonic and never reused, even across failed
    /// loads.
    pub fn load_bitmap(
        &mut self,
        decoded: Result<PittoreDecodedImage, PittoreBitmapLoadError>,
    ) -> (r: Result<PittoreBitmap, PittoreBitmapLoadError>)
        requires
            old(self)@.next_bitmap_id < u64::MAX,
        ensures
            decoded matches Ok(_) ==> (r matches Ok(h) && successful_load(
                old(self)@,
                final(self)@,
                h,
            )),
            decoded matches Err(e) ==> (r matches Err(e2) && e2 == e),
            decoded matches Err(_) ==> failed_load(old(self)@, final(self)@),
            old(self)@.wf() ==> final(self)@.wf(),
            old(self)@.replayable() ==> final(self)@.replayable(),
    {
        let id = self.next_bitmap_id;
        self.next_bitmap_id = id + 1;
        match decoded {
            Ok(_image) => {
                let handle = PittoreBitmap::new(self.namespace, id);
                cache_insert(&mut self.bitmaps, handle.namespace(), handle.id(), id);
                proof {
                    assert(final(self)@ =~= (RenderTargetState {
                        next_bitmap_id: (old(self)@.next_bitmap_id + 1) as u64,
                        entries: old(self)@.entries.insert(
                            (old(self)@.namespace, old(self)@.next_bitmap_id),
                            old(self)@.next_bitmap_id,
                        ),
                        ..old(self)@
                    }));
                }
                Ok(handle)
            },
            Err(e) => {
                proof {
                    assert(final(self)@ =~= (RenderTargetState {
                        next_bitmap_id: (old(self)@.next_bitmap_id + 1) as u64,
                        ..old(self)@
                    }));
                }
                Err(e)
            },
        }
    }

    /// Loads the resource at `file_path` into the cache and returns its
    /// handle.
    ///
    /// Decoding is the platform collaborator's concern; the recording
    /// engine treats every load request as a successful decode and records
    /// it, so the call always returns a fresh handle.
    pub fn load_bitmap_from_file(&mut self, _file_path: &str) -> (r: Result<
        PittoreBitmap,
        PittoreBitmapLoadError,
    >)
        requires
            old(self)@.next_bitmap_id < u64::MAX,
        ensures
            r matches Ok(h) && successful_load(old(self)@, final(self)@, h),
            old(self)@.wf() ==> final(self)@.wf(),
    {
        self.load_bitmap(Ok(PittoreDecodedImage { width: 0, height: 0 }))
    }

    /// Changes the backing surface's pixel dimensions in place; the
    /// target's identity, cache and recorded surface contents are kept.
    ///
    /// Zero dimensions are rejected as `InvalidResizeDimensions`. The
    /// resize shares the surface's exclusion domain with render passes, so
    /// it must not be called while a pass is in progress.
    pub fn resize(&mut self, width: u32, height: u32) -> (r: Result<(), PittoreResizeError>)
        requires
            !old(self)@.in_use,
        ensures
            width == 0 || height == 0 ==> (r matches Err(e) && e
                == PittoreResizeError::InvalidResizeDimensions),
            width == 0 || height == 0 ==> final(self)@ == old(self)@,
            width > 0 && height > 0 ==> r matches Ok(_),
            width > 0 && height > 0 ==> final(self)@ == (RenderTargetState {
                width,
                height,
                ..old(self)@
            }),
    {
        if width == 0 || height == 0 {
            Err(PittoreResizeError::InvalidResizeDimensions)
        } else {
            self.width = width;
            self.height = height;
            Ok(())
        }
    }

    /// Whether this target issued the handle: true exactly when the cache
    /// holds an entry for it.
    pub fn bitmap_is_issued(&self, bitmap: &PittoreBitmap) -> (r: bool)
        ensures
            r == self@.entries.dom().contains((bitmap.spec_namespace(), bitmap.spec_id())),
    {
        cache_lookup(&self.bitmaps, bitmap.namespace(), bitmap.id()).is_some()
    }

    /// The engine call that replays the `i`-th composited operation, oldest
    /// first: a clear, a solid-brush fill, a bitmap-brush fill, or — for a
    /// rectangle painted with a bitmap — the specialized stretch-blit.
    ///
    /// A bitmap fill reaches the surface only while its handle is cached,
    /// and entries are never evicted, so for a recorded surface the call is
    /// always there.
    pub fn surface_draw_call(&self, i: usize) -> (r: Option<PittoreDrawCall>)
        requires
            i < self@.surface.len(),
        ensures
            r == spec_draw_call(self@.entries, self@.surface[i as int]),
    {
        match self.surface[i] {
            PittoreDrawOp::Clear(color) => Some(PittoreDrawCall::ClearSurface(color)),
            PittoreDrawOp::Fill(PittoreMaterial::Color(color), shape) => Some(
                PittoreDrawCall::SolidBrushFill(color, shape),
            ),
            PittoreDrawOp::Fill(PittoreMaterial::Bitmap(h), shape) => {
                match cache_lookup(&self.bitmaps, h.namespace(), h.id()) {
                    Some(token) => match shape {
                        PittoreShape::Rectangle(rect) => Some(
                            PittoreDrawCall::StretchBlit(token, rect),
                        ),
                        PittoreShape::Ellipse { .. } => Some(
                            PittoreDrawCall::BitmapBrushFill(token, shape),
                        ),
                    },
                    None => None,
                }
            },
        }
    }

    /// The namespace under which this target issues bitmap handles.
    pub fn namespace(&self) -> (r: u64)
        ensures
            r == self@.namespace,
    {
        self.namespace
    }

    /// The id the next issued bitmap handle will carry.
    pub fn next_bitmap_id(&self) -> (r: u64)
        ensures
            r == self@.next_bitmap_id,
    {
        self.next_bitmap_id
    }

    /// Whether a render pass is currently active on this target.
    pub fn is_in_use(&self) -> (r: bool)
        ensures
            r == self@.in_use,
    {
        self.in_use
    }

    /// Width of the surface in pixels.
    pub fn width(&self) -> (r: u32)
        ensures
            r == self@.width,
    {
        self.width
    }

    /// Height of the surface in pixels.
    pub fn height(&self) -> (r: u32)
        ensures
            r == self@.height,
    {
        self.height
    }

    /// How many operations are composited on the surface.
    pub fn surface_op_count(&self) -> (r: usize)
        ensures
            r == self@.surface.len(),
    {
        self.surface.len()
    }

    /// The `i`-th operation composited on the surface, oldest first.
    pub fn surface_op(&self, i: usize) -> (r: PittoreDrawOp)
        requires
            i < self@.surface.len(),
        ensures
            r == self@.surface[i as int],
    {
        self.surface[i]
    }

    /// How many fills were skipped over this target's lifetime.
    pub fn diagnostic_count(&self) -> (r: usize)
        ensures
            r == self@.diagnostics.len(),
    {
        self.diagnostics.len()
    }

    /// The handle of the `i`-th skipped fill, oldest first.
    pub fn diagnostic(&self, i: usize) -> (r: PittoreBitmap)
        requires
            i < self@.diagnostics.len(),
        ensures
            r == self@.diagnostics[i as int],
    {
        self.diagnostics[i]
    }
}

/// Applying a pass never breaks replayability: every operation that lands
/// on the surface took effect against the cache, and the operations already
/// there keep their entries.
pub proof fn lemma_apply_ops_keeps_replayable(
    surface: Seq<PittoreDrawOp>,
    ops: Seq<PittoreDrawOp>,
    entries: Map<(u64, u64), u64>,
)
    requires
        forall|i: int| 0 <= i < surface.len() ==> op_applies(entries, #[trigger] surface[i]),
    ensures
        forall|i: int|
            0 <= i < apply_ops(surface, ops, entries).len() ==> op_applies(
                entries,
                #[trigger] apply_ops(surface, ops, entries)[i],
            ),
    decreases ops.len(),
{
    if ops.len() > 0 {
        lemma_apply_ops_keeps_replayable(surface, ops.drop_last(), entries);
        let prefix = apply_ops(surface, ops.drop_last(), entries);
        let result = apply_ops(surface, ops, entries);
        if op_applies(entries, ops.last()) {
            match ops.last() {
                PittoreDrawOp::Clear(_) => {
                    assert(result =~= seq![ops.last()]);
                    assert forall|i: int| 0 <= i < result.len() implies op_applies(
                        entries,
                        result[i],
                    ) by {
                        assert(result[i] == ops.last());
                    }
                },
                PittoreDrawOp::Fill(_, _) => {
                    assert(result =~= prefix.push(ops.last()));
                    assert forall|i: int| 0 <= i < result.len() implies op_applies(
                        entries,
                        result[i],
                    ) by {
                        if i < prefix.len() {
                            assert(result[i] == prefix[i]);
                        } else {
                            assert(result[i] == ops.last());
                        }
                    }
                },
            }
        } else {
            assert(result == prefix);
        }
    }
}

/// Every operation on a replayable surface has its engine call: a recorded
/// frame can always be replayed in full.
pub proof fn lemma_replayable_surface_has_draw_calls(s: RenderTargetState, i: int)
    requires
        s.replayable(),
        0 <= i < s.surface.len(),
    ensures
        spec_draw_call(s.entries, s.surface[i]) matches Some(_),
{
    assert(op_applies(s.entries, s.surface[i]));
}

/// Finalizing a pass is compositional: applying a pass that issues `a`
/// followed by `b` leaves the surface, and the recorded diagnostics, exactly
/// as applying `a` and then `b` would.
pub proof fn lemma_apply_ops_split(
    surface: Seq<PittoreDrawOp>,
    a: Seq<PittoreDrawOp>,
    b: Seq<PittoreDrawOp>,
    entries: Map<(u64, u64), u64>,
)
    ensures
        apply_ops(surface, a + b, entries) == apply_ops(
            apply_ops(surface, a, entries),
            b,
            entries,
        ),
        skipped_fills(a + b, entries) == skipped_fills(a, entries) + skipped_fills(b, entries),
    decreases b.len(),
{
    if b.len() == 0 {
        assert(a + b =~= a);
        assert(skipped_fills(a, entries) + skipped_fills(b, entries) =~= skipped_fills(
            a,
            entries,
        ));
    } else {
        lemma_apply_ops_split(surface, a, b.drop_last(), entries);
        assert((a + b).drop_last() =~= a + b.drop_last());
        assert(skipped_fills(a + b, entries) =~= skipped_fills(a, entries) + skipped_fills(
            b,
            entries,
        ));
    }
}

/// Every pass whose operations are all composites — fills whose handles the
/// cache holds — completes exactly as issued: the operations land on the
/// surface in issued order, after its prior contents, and no diagnostic is
/// recorded.
pub proof fn lemma_pass_applies_in_issued_order(
    surface: Seq<PittoreDrawOp>,
    ops: Seq<PittoreDrawOp>,
    entries: Map<(u64, u64), u64>,
)
    requires
        forall|i: int| 0 <= i < ops.len() ==> op_applies(entries, #[trigger] ops[i]),
        forall|i: int| 0 <= i < ops.len() ==> !(#[trigger] ops[i] matches PittoreDrawOp::Clear(_)),
    ensures
        apply_ops(surface, ops, entries) == surface + ops,
        skipped_fills(ops, entries).len() == 0,
    decreases ops.len(),
{
    if ops.len() == 0 {
        assert(surface + ops =~= surface);
    } else {
        assert forall|i: int| 0 <= i < ops.drop_last().len() implies op_applies(
            entries,
            #[trigger] ops.drop_last()[i],
        ) && !(ops.drop_last()[i] matches PittoreDrawOp::Clear(_)) by {
            assert(ops.drop_last()[i] == ops[i]);
        }
        lemma_pass_applies_in_issued_order(surface, ops.drop_last(), entries);
        assert(ops.last() == ops[ops.len() - 1]);
        assert(apply_ops(surface, ops, entries) =~= surface + ops);
    }
}

/// A fill with a handle the cache holds is never skipped: applied alone it
/// composites over the surface and records no diagnostic.
pub proof fn lemma_issued_bitmap_fill_applies(
    surface: Seq<PittoreDrawOp>,
    h: PittoreBitmap,
    shape: PittoreShape,
    entries: Map<(u64, u64), u64>,
)
    requires
        entries.dom().contains((h.spec_namespace(), h.spec_id())),
    ensures
        ({
            let op = PittoreDrawOp::Fill(PittoreMaterial::Bitmap(h), shape);
            op_applies(entries, op) && apply_ops(surface, seq![op], entries) == surface.push(op)
                && skipped_fills(seq![op], entries).len() == 0
        }),
{
    let op = PittoreDrawOp::Fill(PittoreMaterial::Bitmap(h), shape);
    let rest = seq![op].drop_last();
    assert(rest =~= Seq::<PittoreDrawOp>::empty());
    assert(apply_ops(surface, rest, entries) == surface);
    assert(skipped_fills(rest, entries) =~= Seq::<PittoreBitmap>::empty());
    assert(seq![op].last() == op);
}

/// A single fill with a handle the cache does not hold is recovered from
/// locally, wherever it stands in the pass: the surface ends exactly as if
/// the operation had not been issued, every other operation of the pass
/// takes effect, and exactly one diagnostic — that handle — is recorded in
/// issue order.
pub proof fn lemma_unknown_bitmap_fill_skipped(
    surface: Seq<PittoreDrawOp>,
    before: Seq<PittoreDrawOp>,
    h: PittoreBitmap,
    shape: PittoreShape,
    after: Seq<PittoreDrawOp>,
    entries: Map<(u64, u64), u64>,
)
    requires
        !entries.dom().contains((h.spec_namespace(), h.spec_id())),
    ensures
        ({
            let op = PittoreDrawOp::Fill(PittoreMaterial::Bitmap(h), shape);
            apply_ops(surface, before + seq![op] + after, entries) == apply_ops(
                surface,
                before + after,
                entries,
            ) && skipped_fills(before + seq![op] + after, entries) == skipped_fills(
                before,
                entries,
            ) + seq![h] + skipped_fills(after, entries)
        }),
{
    let op = PittoreDrawOp::Fill(PittoreMaterial::Bitmap(h), shape);
    let rest = seq![op].drop_last();
    assert(rest =~= Seq::<PittoreDrawOp>::empty());
    assert(seq![op].last() == op);
    assert(!op_applies(entries, op));
    let x = apply_ops(surface, before, entries);
    assert(apply_ops(x, rest, entries) == x);
    assert(apply_ops(x, seq![op], entries) == x);
    assert(skipped_fills(rest, entries) =~= Seq::<PittoreBitmap>::empty());
    assert(skipped_fills(seq![op], entries) =~= seq![h]);
    lemma_apply_ops_split(surface, before, seq![op], entries);
    lemma_apply_ops_split(surface, before + seq![op], after, entries);
    lemma_apply_ops_split(surface, before, after, entries);
    assert(skipped_fills(before + seq![op] + after, entries) =~= skipped_fills(
        before,
        entries,
    ) + seq![h] + skipped_fills(after, entries));
}

/// Two successful loads, one directly after the other, return handles under
/// one namespace with strictly increasing — so pairwise-distinct — ids.
pub proof fn lemma_successive_loads_distinct(
    s0: RenderTargetState,
    s1: RenderTargetState,
    s2: RenderTargetState,
    h1: PittoreBitmap,
    h2: PittoreBitmap,
)
    requires
        successful_load(s0, s1, h1),
        successful_load(s1, s2, h2),
    ensures
        h1.spec_id() < h2.spec_id(),
        h1.spec_namespace() == h2.spec_namespace(),
        h1 != h2,
{
}

/// A run of successful loads: `handles[i]` is returned by the load that
/// takes the target from `states[i]` to `states[i + 1]`.
pub open spec fn load_run(states: Seq<RenderTargetState>, handles: Seq<PittoreBitmap>) -> bool {
    &&& states.len() == handles.len() + 1
    &&& forall|i: int|
        0 <= i < handles.len() ==> successful_load(states[i], states[i + 1], #[trigger] handles[i])
}

/// Any number of successful loads on one target returns handles with
/// strictly increasing, pairwise-distinct ids under the same namespace.
pub proof fn lemma_load_run_ids_strictly_increase(
    states: Seq<RenderTargetState>,
    handles: Seq<PittoreBitmap>,
    i: int,
    j: int,
)
    requires
        load_run(states, handles),
        0 <= i < j < handles.len(),
    ensures
        handles[i].spec_id() < handles[j].spec_id(),
        handles[i].spec_namespace() == handles[j].spec_namespace(),
        handles[i] != handles[j],
    decreases j - i,
{
    if j == i + 1 {
        lemma_successive_loads_distinct(
            states[i],
            states[i + 1],
            states[i + 2],
            handles[i],
            handles[j],
        );
    } else {
        lemma_load_run_ids_strictly_increase(states, handles, i, j - 1);
        lemma_successive_loads_distinct(
            states[j - 1],
            states[j],
            states[j + 1],
            handles[j - 1],
            handles[j],
        );
    }
}

/// A well-formed target never holds a handle from a foreign namespace, nor
/// one whose id its counter has not yet issued: a fill with such a handle is
/// the skipped, diagnosed case.
pub proof fn lemma_foreign_or_stale_handle_not_issued(
    s: RenderTargetState,
    h: PittoreBitmap,
    shape: PittoreShape,
)
    requires
        s.wf(),
        h.spec_namespace() != s.namespace || h.spec_id() >= s.next_bitmap_id,
    ensures
        !s.entries.dom().contains((h.spec_namespace(), h.spec_id())),
        !op_applies(s.entries, PittoreDrawOp::Fill(PittoreMaterial::Bitmap(h), shape)),
{
}

} // verus!
