use palvox::assets::PreloadedImages;
use palvox::driver::{drive, translate_batch, DriveOutcome, FramePoll};
use palvox::input::{InputAction, Key, KeyAction, Modifiers, PlatformEvent};
use palvox::pipeline::quad::QuadPipeline;
use palvox::pipeline::Pipeline;
use palvox::render::{GpuError, RecordingContext};

fn no_mods() -> Modifiers {
    Modifiers {
        shift: false,
        control: false,
        alt: false,
        super_key: false,
        caps_lock: false,
        num_lock: false,
    }
}

fn cache_with_test_texture() -> PreloadedImages {
    let solid = image::RgbImage::from_raw(2, 2, vec![9; 12]).expect("pixel buffer size");
    let mut bytes: Vec<u8> = Vec::new();
    image::DynamicImage::ImageRgb8(solid)
        .write_to(&mut std::io::Cursor::new(&mut bytes), image::ImageFormat::Png)
        .expect("png encoding");
    let mut cache = PreloadedImages::new();
    cache.load_file("test", "assets/test.png", &bytes).expect("decodable image");
    cache
}

#[test]
fn translate_batch_keeps_delivery_order_and_drops_suppressed_events() {
    let events = vec![
        PlatformEvent::FramebufferSize { width: 800, height: 600 },
        PlatformEvent::Key { key: Key::Other, action: KeyAction::Press, mods: no_mods() },
        PlatformEvent::Key { key: Key::A, action: KeyAction::Press, mods: no_mods() },
        PlatformEvent::Other,
        PlatformEvent::Close,
    ];
    let actions = translate_batch(&events);
    assert_eq!(
        actions,
        vec![
            InputAction::Resized { width: 800, height: 600 },
            InputAction::Left,
            InputAction::Quit,
        ]
    );
}

#[test]
fn drive_presents_each_continued_frame_and_stops_on_quit() {
    let cache = cache_with_test_texture();
    let mut ctx = RecordingContext::new();
    let pipeline = QuadPipeline::bootstrap([100, 100], &cache, &mut ctx).expect("bootstrap");

    let frames = vec![
        FramePoll { elapsed_ms: 0, events: Vec::new() },
        FramePoll {
            elapsed_ms: 16,
            events: vec![PlatformEvent::FramebufferSize { width: 320, height: 200 }],
        },
        FramePoll {
            elapsed_ms: 32,
            events: vec![PlatformEvent::Key {
                key: Key::Escape,
                action: KeyAction::Release,
                mods: no_mods(),
            }],
        },
        FramePoll { elapsed_ms: 48, events: Vec::new() },
    ];
    match drive(pipeline, &frames, &mut ctx) {
        DriveOutcome::Exited => {},
        _ => panic!("expected the quit frame to end the loop"),
    }
    // The two frames before the quit each drew once; the quit frame and
    // the frame after it drew nothing.
    assert_eq!(ctx.draw_log.len(), 2);
}

#[test]
fn drive_without_a_quit_consumes_every_frame() {
    let cache = cache_with_test_texture();
    let mut ctx = RecordingContext::new();
    let pipeline = QuadPipeline::bootstrap([100, 100], &cache, &mut ctx).expect("bootstrap");

    let frames = vec![
        FramePoll { elapsed_ms: 0, events: Vec::new() },
        FramePoll { elapsed_ms: 16, events: Vec::new() },
        FramePoll { elapsed_ms: 32, events: Vec::new() },
    ];
    match drive(pipeline, &frames, &mut ctx) {
        DriveOutcome::Pending(live) => assert_eq!(live, pipeline),
        _ => panic!("expected the effect to stay live"),
    }
    assert_eq!(ctx.draw_log.len(), 3);
}

#[test]
fn drive_surfaces_a_mid_frame_failure_and_stops() {
    let cache = cache_with_test_texture();
    let mut ctx = RecordingContext::new();
    let pipeline = QuadPipeline::bootstrap([100, 100], &cache, &mut ctx).expect("bootstrap");

    ctx.fail_draws = true;
    let frames = vec![
        FramePoll { elapsed_ms: 0, events: Vec::new() },
        FramePoll { elapsed_ms: 16, events: Vec::new() },
    ];
    match drive(pipeline, &frames, &mut ctx) {
        DriveOutcome::Failed(GpuError::Draw) => {},
        _ => panic!("expected the first frame's failure to end the loop"),
    }
    assert_eq!(ctx.draw_log.len(), 0);
}
