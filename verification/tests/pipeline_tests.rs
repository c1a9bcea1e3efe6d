use palvox::assets::PreloadedImages;
use palvox::input::{InputAction, LoopFeedback};
use palvox::pipeline::quad::{load_img, QuadPipeline};
use palvox::pipeline::triangle::TrianglePipeline;
use palvox::pipeline::Pipeline;
use palvox::render::{GpuError, RecordingContext};

/// A cache holding a 2x2 solid-color image under the name `test`.
fn cache_with_test_texture() -> PreloadedImages {
    let mut pixels = Vec::new();
    for _ in 0..4 {
        pixels.extend_from_slice(&[40, 80, 120]);
    }
    let solid = image::RgbImage::from_raw(2, 2, pixels).expect("pixel buffer size");
    let mut bytes: Vec<u8> = Vec::new();
    image::DynamicImage::ImageRgb8(solid)
        .write_to(&mut std::io::Cursor::new(&mut bytes), image::ImageFormat::Png)
        .expect("png encoding");
    let mut cache = PreloadedImages::new();
    cache.load_file("test", "assets/test.png", &bytes).expect("decodable image");
    cache
}

#[test]
fn load_img_hands_out_size_and_a_pixel_copy() {
    let cache = cache_with_test_texture();
    let ((width, height), texels) = load_img(&cache, "test").expect("loaded texture");
    assert_eq!((width, height), (2, 2));
    let mut expected = Vec::new();
    for _ in 0..4 {
        expected.extend_from_slice(&[40, 80, 120]);
    }
    assert_eq!(texels, expected);
    assert!(load_img(&cache, "absent").is_none());
}

#[test]
fn end_to_end_bootstrap_render_and_quit() {
    let cache = cache_with_test_texture();
    let mut ctx = RecordingContext::new();

    let pipeline = QuadPipeline::bootstrap([100, 100], &cache, &mut ctx).expect("bootstrap");
    // Bootstrap allocated, in order: texture, program, vertex range, framebuffer.
    assert_eq!(pipeline.img_tex, 0);
    assert_eq!(pipeline.program, 1);
    assert_eq!(pipeline.attributeless, 2);
    assert_eq!(pipeline.back_buffer, 3);
    assert_eq!(ctx.draw_log.len(), 0);

    // One frame with an empty action stream: Continue with the same
    // resource handles, and exactly one draw call recorded against the
    // allocated framebuffer.
    let actions: Vec<InputAction> = Vec::new();
    let stepped = match pipeline.render_frame(0, &actions, &mut ctx) {
        Ok(LoopFeedback::Continue(next)) => next,
        _ => panic!("expected the frame to continue"),
    };
    assert_eq!(stepped, pipeline);
    assert_eq!(ctx.draw_log.len(), 1);
    assert_eq!(ctx.draw_log[0].framebuffer, pipeline.back_buffer);
    assert_eq!(ctx.draw_log[0].program, pipeline.program);
    assert_eq!(ctx.draw_log[0].vertex_range, pipeline.attributeless);
    assert_eq!(ctx.draw_log[0].vertex_count, 6);

    // A second frame whose stream holds only Quit: Exit, no further draw.
    let quit = vec![InputAction::Quit];
    match stepped.render_frame(16, &quit, &mut ctx) {
        Ok(LoopFeedback::Exit) => {},
        _ => panic!("expected the frame to exit"),
    }
    assert_eq!(ctx.draw_log.len(), 1);
}

#[test]
fn quit_short_circuits_rendering_wherever_it_stands() {
    let cache = cache_with_test_texture();
    let mut ctx = RecordingContext::new();
    let pipeline = QuadPipeline::bootstrap([64, 64], &cache, &mut ctx).expect("bootstrap");

    let actions = vec![
        InputAction::MainToggle,
        InputAction::Forward,
        InputAction::Quit,
        InputAction::PrimaryPressed,
    ];
    match pipeline.render_frame(5, &actions, &mut ctx) {
        Ok(LoopFeedback::Exit) => {},
        _ => panic!("expected the frame to exit"),
    }
    assert_eq!(ctx.draw_log.len(), 0);
}

#[test]
fn non_quit_actions_are_ignored_by_the_static_effect() {
    let cache = cache_with_test_texture();
    let mut ctx = RecordingContext::new();
    let pipeline = QuadPipeline::bootstrap([64, 64], &cache, &mut ctx).expect("bootstrap");

    let actions = vec![
        InputAction::Resized { width: 800, height: 600 },
        InputAction::AuxiliaryToggle,
        InputAction::Backward,
    ];
    match pipeline.render_frame(5, &actions, &mut ctx) {
        Ok(LoopFeedback::Continue(next)) => assert_eq!(next, pipeline),
        _ => panic!("expected the frame to continue"),
    }
    assert_eq!(ctx.draw_log.len(), 1);
}

#[test]
fn a_failing_draw_surfaces_as_a_render_error() {
    let cache = cache_with_test_texture();
    let mut ctx = RecordingContext::new();
    let pipeline = QuadPipeline::bootstrap([64, 64], &cache, &mut ctx).expect("bootstrap");

    ctx.fail_draws = true;
    let actions: Vec<InputAction> = Vec::new();
    match pipeline.render_frame(0, &actions, &mut ctx) {
        Err(GpuError::Draw) => {},
        _ => panic!("expected the draw failure to surface"),
    }
    assert_eq!(ctx.draw_log.len(), 0);
}

#[test]
fn bootstrap_without_the_test_asset_reports_a_missing_asset() {
    let cache = PreloadedImages::new();
    let mut ctx = RecordingContext::new();
    match QuadPipeline::bootstrap([100, 100], &cache, &mut ctx) {
        Err(GpuError::MissingAsset) => {},
        _ => panic!("expected a missing-asset error"),
    }
    // Nothing was allocated and nothing was drawn.
    assert_eq!(ctx.next_handle, 0);
    assert_eq!(ctx.draw_log.len(), 0);
}

#[test]
fn bootstrap_propagates_the_first_failing_allocation_unchanged() {
    let cache = cache_with_test_texture();
    let mut ctx = RecordingContext::new();
    // Leave room for exactly one handle: the texture succeeds, the
    // program allocation is the first to fail, and its error comes back.
    ctx.next_handle = u64::MAX - 1;
    match QuadPipeline::bootstrap([100, 100], &cache, &mut ctx) {
        Err(GpuError::ProgramCompilation) => {},
        _ => panic!("expected the program allocation's own error"),
    }
}

#[test]
fn bootstrap_failure_is_reported_not_hidden() {
    let cache = cache_with_test_texture();
    let mut ctx = RecordingContext::new();
    // Exhaust the handle space: the very first allocation fails.
    ctx.next_handle = u64::MAX;
    match QuadPipeline::bootstrap([100, 100], &cache, &mut ctx) {
        Err(GpuError::TextureAllocation) => {},
        _ => panic!("expected the texture allocation to fail"),
    }
}

#[test]
fn triangle_pipeline_needs_no_assets_and_draws_three_vertices() {
    let cache = PreloadedImages::new();
    let mut ctx = RecordingContext::new();
    let pipeline = TrianglePipeline::bootstrap([32, 32], &cache, &mut ctx).expect("bootstrap");
    assert_eq!(pipeline.program, 0);
    assert_eq!(pipeline.attributeless, 1);
    assert_eq!(pipeline.back_buffer, 2);

    let actions: Vec<InputAction> = Vec::new();
    match pipeline.render_frame(0, &actions, &mut ctx) {
        Ok(LoopFeedback::Continue(next)) => assert_eq!(next, pipeline),
        _ => panic!("expected the frame to continue"),
    }
    assert_eq!(ctx.draw_log.len(), 1);
    assert_eq!(ctx.draw_log[0].vertex_count, 3);
    assert_eq!(ctx.draw_log[0].framebuffer, pipeline.back_buffer);
}

#[test]
fn each_frame_replaces_the_single_owned_instance() {
    // The driver-side ownership discipline, simulated with a moved-from
    // marker: the slot is emptied while a frame runs and refilled with
    // the replacement, so exactly one live instance exists at any time.
    let cache = cache_with_test_texture();
    let mut ctx = RecordingContext::new();
    let mut slot: Option<QuadPipeline> =
        Some(QuadPipeline::bootstrap([10, 10], &cache, &mut ctx).expect("bootstrap"));

    for frame in 0..3u64 {
        let current = slot.take().expect("one live instance");
        assert!(slot.is_none(), "the previous instance is no longer usable");
        let actions: Vec<InputAction> = Vec::new();
        match current.render_frame(frame, &actions, &mut ctx) {
            Ok(LoopFeedback::Continue(next)) => slot = Some(next),
            _ => panic!("expected the frame to continue"),
        }
        assert!(slot.is_some(), "exactly one live instance after the frame");
    }
    assert_eq!(ctx.draw_log.len(), 3);
}
