//! Tests of the render target: pass exclusion, the bitmap cache, resizing
//! and the recorded surface.

use pittore::PittoreBitmap;
use pittore::PittoreBitmapLoadError;
use pittore::PittoreColor;
use pittore::PittoreContextBuilder;
use pittore::PittoreDecodedImage;
use pittore::PittoreDrawCall;
use pittore::PittoreDrawOp;
use pittore::PittoreEngineError;
use pittore::PittoreMaterial;
use pittore::PittorePoint;
use pittore::PittoreRect;
use pittore::PittoreRenderError;
use pittore::PittoreRenderTarget;
use pittore::PittoreResizeError;
use pittore::PittoreShape;
use pittore::PittoreSize;
use pittore::RECORDING_NAMESPACE;

fn attach(width: u32, height: u32) -> PittoreRenderTarget {
    let context = PittoreContextBuilder::new().build().unwrap();
    context.attach_to_surface(width, height).unwrap()
}

fn red() -> PittoreColor {
    PittoreColor::opaque(1.0f32.to_bits(), 0, 0)
}

fn blue() -> PittoreColor {
    PittoreColor::opaque(0, 0, 1.0f32.to_bits())
}

fn rect(x: f32, y: f32, w: f32, h: f32) -> PittoreShape {
    PittoreShape::Rectangle(PittoreRect {
        origin: PittorePoint { x: x.to_bits(), y: y.to_bits() },
        size: PittoreSize { width: w.to_bits(), height: h.to_bits() },
    })
}

#[test]
fn attach_sizes_the_surface_to_the_window() {
    let target = attach(800, 600);
    assert_eq!(target.width(), 800);
    assert_eq!(target.height(), 600);
    assert_eq!(target.namespace(), RECORDING_NAMESPACE);
    assert_eq!(target.next_bitmap_id(), 0);
    assert!(!target.is_in_use());
    assert_eq!(target.surface_op_count(), 0);
    assert_eq!(target.diagnostic_count(), 0);
}

#[test]
fn pass_records_operations_in_issued_order() {
    let mut target = attach(640, 480);
    let mut pass = target.begin_render_pass().unwrap();
    pass.clear(red());
    pass.fill(PittoreMaterial::Color(blue()), rect(10.0, 10.0, 100.0, 50.0));
    pass.fill(PittoreMaterial::Color(red()), rect(30.0, 30.0, 364.0, 364.0));
    // No partial frame is visible while the pass is still open.
    assert_eq!(target.surface_op_count(), 0);
    target.end_render_pass(pass).unwrap();
    assert_eq!(target.surface_op_count(), 3);
    assert_eq!(target.surface_op(0), PittoreDrawOp::Clear(red()));
    assert_eq!(
        target.surface_op(1),
        PittoreDrawOp::Fill(PittoreMaterial::Color(blue()), rect(10.0, 10.0, 100.0, 50.0))
    );
    assert_eq!(
        target.surface_op(2),
        PittoreDrawOp::Fill(PittoreMaterial::Color(red()), rect(30.0, 30.0, 364.0, 364.0))
    );
    assert_eq!(target.diagnostic_count(), 0);
}

#[test]
fn clear_discards_prior_frames() {
    let mut target = attach(640, 480);
    let mut pass = target.begin_render_pass().unwrap();
    pass.clear(red());
    pass.fill(PittoreMaterial::Color(blue()), rect(0.0, 0.0, 8.0, 8.0));
    target.end_render_pass(pass).unwrap();
    assert_eq!(target.surface_op_count(), 2);
    let mut pass = target.begin_render_pass().unwrap();
    pass.clear(blue());
    target.end_render_pass(pass).unwrap();
    assert_eq!(target.surface_op_count(), 1);
    assert_eq!(target.surface_op(0), PittoreDrawOp::Clear(blue()));
}

#[test]
fn nested_begin_render_pass_fails_without_blocking() {
    let mut target = attach(640, 480);
    let pass = target.begin_render_pass().unwrap();
    assert!(target.is_in_use());
    // A second acquisition while the pass is active must fail immediately.
    let again = target.begin_render_pass();
    assert!(matches!(again, Err(PittoreRenderError::RenderTargetAlreadyInUse)));
    let third = target.begin_render_pass();
    assert!(matches!(third, Err(PittoreRenderError::RenderTargetAlreadyInUse)));
    // The failure does not corrupt the active pass or the target.
    target.end_render_pass(pass).unwrap();
    assert!(!target.is_in_use());
    let recovered = target.begin_render_pass();
    assert!(recovered.is_ok());
    target.end_render_pass(recovered.unwrap()).unwrap();
}

#[test]
fn loaded_bitmap_fills_without_diagnostic() {
    let mut target = attach(640, 480);
    let handle = target.load_bitmap_from_file("logo.png").unwrap();
    assert!(target.bitmap_is_issued(&handle));
    let mut pass = target.begin_render_pass().unwrap();
    pass.fill(PittoreMaterial::Bitmap(handle), rect(0.0, 0.0, 64.0, 64.0));
    target.end_render_pass(pass).unwrap();
    assert_eq!(target.diagnostic_count(), 0);
    assert_eq!(target.surface_op_count(), 1);
    assert_eq!(
        target.surface_op(0),
        PittoreDrawOp::Fill(PittoreMaterial::Bitmap(handle), rect(0.0, 0.0, 64.0, 64.0))
    );
}

#[test]
fn loads_return_strictly_increasing_ids() {
    let mut target = attach(640, 480);
    let mut previous: Option<u64> = None;
    for _ in 0..5 {
        let handle = target.load_bitmap_from_file("image.png").unwrap();
        assert_eq!(handle.namespace(), RECORDING_NAMESPACE);
        if let Some(p) = previous {
            assert!(p < handle.id());
        }
        previous = Some(handle.id());
    }
    assert_eq!(previous, Some(4));
    assert_eq!(target.next_bitmap_id(), 5);
}

#[test]
fn unknown_bitmap_fill_is_skipped_and_diagnosed() {
    let mut target = attach(640, 480);
    let issued = target.load_bitmap_from_file("logo.png").unwrap();
    // A handle this target never issued: same namespace, never-issued id.
    let stale = PittoreBitmap::new(RECORDING_NAMESPACE, 999);
    // A handle from a foreign namespace.
    let foreign = PittoreBitmap::new(0xD2D, 0);
    assert!(!target.bitmap_is_issued(&stale));
    assert!(!target.bitmap_is_issued(&foreign));
    let mut pass = target.begin_render_pass().unwrap();
    pass.clear(red());
    pass.fill(PittoreMaterial::Bitmap(stale), rect(0.0, 0.0, 8.0, 8.0));
    pass.fill(PittoreMaterial::Bitmap(foreign), rect(0.0, 0.0, 8.0, 8.0));
    pass.fill(PittoreMaterial::Bitmap(issued), rect(1.0, 1.0, 2.0, 2.0));
    // The bad fills do not abort the pass.
    assert!(target.end_render_pass(pass).is_ok());
    // The valid operations took effect, in order, without the skipped ones.
    assert_eq!(target.surface_op_count(), 2);
    assert_eq!(target.surface_op(0), PittoreDrawOp::Clear(red()));
    assert_eq!(
        target.surface_op(1),
        PittoreDrawOp::Fill(PittoreMaterial::Bitmap(issued), rect(1.0, 1.0, 2.0, 2.0))
    );
    // One diagnostic per skipped fill, in issue order.
    assert_eq!(target.diagnostic_count(), 2);
    assert_eq!(target.diagnostic(0), stale);
    assert_eq!(target.diagnostic(1), foreign);
}

#[test]
fn surface_draw_calls_pick_the_right_engine_path() {
    let mut target = attach(640, 480);
    let handle = target.load_bitmap_from_file("logo.png").unwrap();
    let ellipse = PittoreShape::Ellipse {
        center: PittorePoint { x: 5, y: 6 },
        radius: PittorePoint { x: 7, y: 8 },
    };
    let mut pass = target.begin_render_pass().unwrap();
    pass.clear(red());
    pass.fill(PittoreMaterial::Color(blue()), rect(0.0, 0.0, 4.0, 4.0));
    pass.fill(PittoreMaterial::Bitmap(handle), rect(0.0, 0.0, 64.0, 64.0));
    pass.fill(PittoreMaterial::Bitmap(handle), ellipse);
    target.end_render_pass(pass).unwrap();
    assert_eq!(target.surface_op_count(), 4);
    // A clear maps to the clear-surface call.
    assert_eq!(target.surface_draw_call(0), Some(PittoreDrawCall::ClearSurface(red())));
    // A color fill maps to a solid brush.
    assert_eq!(
        target.surface_draw_call(1),
        Some(PittoreDrawCall::SolidBrushFill(blue(), rect(0.0, 0.0, 4.0, 4.0)))
    );
    // A rectangle painted with a bitmap takes the stretch-blit fast path.
    let token = handle.id();
    assert!(matches!(
        target.surface_draw_call(2),
        Some(PittoreDrawCall::StretchBlit(t, _)) if t == token
    ));
    // An ellipse painted with a bitmap takes the generic brush path.
    assert_eq!(
        target.surface_draw_call(3),
        Some(PittoreDrawCall::BitmapBrushFill(token, ellipse))
    );
}

#[test]
fn resize_then_clear_yields_a_full_frame_of_that_color() {
    let mut target = attach(640, 480);
    target.resize(320, 200).unwrap();
    assert_eq!(target.width(), 320);
    assert_eq!(target.height(), 200);
    let mut pass = target.begin_render_pass().unwrap();
    pass.clear(blue());
    target.end_render_pass(pass).unwrap();
    assert_eq!(target.width(), 320);
    assert_eq!(target.height(), 200);
    assert_eq!(target.surface_op_count(), 1);
    assert_eq!(target.surface_op(0), PittoreDrawOp::Clear(blue()));
}

#[test]
fn resize_rejects_zero_dimensions() {
    let mut target = attach(640, 480);
    let r = target.resize(0, 100);
    assert!(matches!(r, Err(PittoreResizeError::InvalidResizeDimensions)));
    let r = target.resize(100, 0);
    assert!(matches!(r, Err(PittoreResizeError::InvalidResizeDimensions)));
    assert_eq!(target.width(), 640);
    assert_eq!(target.height(), 480);
}

#[test]
fn failed_load_propagates_the_error_and_consumes_an_id() {
    let mut target = attach(640, 480);
    let r = target.load_bitmap(Err(PittoreBitmapLoadError::DecodeFailure));
    assert!(matches!(r, Err(PittoreBitmapLoadError::DecodeFailure)));
    let r = target.load_bitmap(Err(PittoreBitmapLoadError::FileAccessFailure));
    assert!(matches!(r, Err(PittoreBitmapLoadError::FileAccessFailure)));
    let r = target.load_bitmap(Err(PittoreBitmapLoadError::UnsupportedImageFormat));
    assert!(matches!(r, Err(PittoreBitmapLoadError::UnsupportedImageFormat)));
    let engine_failure = PittoreEngineError { code: -2003292276 };
    let r = target.load_bitmap(Err(PittoreBitmapLoadError::ResourceCreationFailure(
        engine_failure,
    )));
    assert!(matches!(
        r,
        Err(PittoreBitmapLoadError::ResourceCreationFailure(e)) if e == engine_failure
    ));
    // The ids of the failed loads were consumed, never reused.
    let handle = target.load_bitmap(Ok(PittoreDecodedImage { width: 2, height: 2 })).unwrap();
    assert_eq!(handle.id(), 4);
    // The failed loads cached nothing.
    assert!(!target.bitmap_is_issued(&PittoreBitmap::new(RECORDING_NAMESPACE, 0)));
    assert!(target.bitmap_is_issued(&handle));
}

#[test]
fn whole_scenario_over_one_target() {
    let context = PittoreContextBuilder::new().build().unwrap();
    let mut target = context.attach_to_surface(1024, 768).unwrap();
    let h0 = target.load_bitmap_from_file("logo.png").unwrap();
    assert_eq!(h0.namespace(), RECORDING_NAMESPACE);
    assert_eq!(h0.id(), 0);
    let mut pass = target.begin_render_pass().unwrap();
    pass.clear(red());
    pass.fill(PittoreMaterial::Color(blue()), rect(10.0, 10.0, 100.0, 50.0));
    pass.fill(PittoreMaterial::Bitmap(h0), rect(0.0, 0.0, 64.0, 64.0));
    assert!(target.end_render_pass(pass).is_ok());
    assert_eq!(target.surface_op_count(), 3);
    assert_eq!(target.diagnostic_count(), 0);
    let h1 = target.load_bitmap_from_file("logo2.png").unwrap();
    assert_eq!(h1.namespace(), RECORDING_NAMESPACE);
    assert_eq!(h1.id(), 1);
    assert_ne!(h0, h1);
}
