use vellum::{Acquired, FrameAction, FramePlan, GraphicsError, PresentMode, Renderer, SurfaceConfig};
use wgpu::{CompositeAlphaMode, TextureFormat};

fn config(width: u32, height: u32) -> SurfaceConfig {
    SurfaceConfig {
        width,
        height,
        format: TextureFormat::Bgra8UnormSrgb,
        alpha_mode: CompositeAlphaMode::Opaque,
        present_mode: PresentMode::Fifo,
    }
}

fn ready(width: u32, height: u32) -> Renderer {
    let mut r = Renderer::new();
    assert_eq!(r.initialize(Ok(config(width, height))), Ok(()));
    r
}

#[test]
fn new_renderer_is_uninitialized() {
    let r = Renderer::new();
    assert!(!r.is_ready());
    assert!(r.config().is_none());
}

#[test]
fn render_before_initialize_makes_no_gpu_call() {
    let r = Renderer::new();
    assert_eq!(r.render(), FramePlan::NotReady);
}

#[test]
fn resize_before_initialize_is_a_no_op() {
    let mut r = Renderer::new();
    assert!(r.resize(1024, 768).is_none());
    assert!(!r.is_ready());
    assert!(r.config().is_none());
    assert!(r.scene.vertex_buffer().is_none());
}

#[test]
fn initialize_stores_config_and_builds_buffer() {
    let r = ready(800, 600);
    assert!(r.is_ready());
    let c = r.config().unwrap();
    assert_eq!((c.width, c.height), (800, 600));
    assert_eq!(c.format, TextureFormat::Bgra8UnormSrgb);
    assert_eq!(c.alpha_mode, CompositeAlphaMode::Opaque);
    assert_eq!(r.scene.vertex_buffer().unwrap().len(), 3);
    assert_eq!(r.render(), FramePlan::AcquireTexture);
}

#[test]
fn failed_initialize_leaves_context_uninitialized() {
    let mut r = Renderer::new();
    assert_eq!(r.initialize(Err(GraphicsError::NoAdapterFound)), Err(GraphicsError::NoAdapterFound));
    assert!(!r.is_ready());
    assert!(r.scene.vertex_buffer().is_none());
    assert_eq!(r.render(), FramePlan::NotReady);
    assert_eq!(
        r.initialize(Err(GraphicsError::DeviceRequestFailed)),
        Err(GraphicsError::DeviceRequestFailed)
    );
    assert!(!r.is_ready());
}

#[test]
fn resize_zero_by_zero_clamps_to_one_by_one() {
    let mut r = ready(800, 600);
    let applied = r.resize(0, 0).unwrap();
    assert_eq!((applied.width, applied.height), (1, 1));
    let c = r.config().unwrap();
    assert_eq!((c.width, c.height), (1, 1));
}

#[test]
fn resize_zero_width_keeps_height() {
    let mut r = ready(800, 600);
    r.resize(0, 5);
    let c = r.config().unwrap();
    assert_eq!((c.width, c.height), (1, 5));
}

#[test]
fn resize_twice_equals_resize_once() {
    let mut once = ready(800, 600);
    once.resize(1280, 720);
    let mut twice = ready(800, 600);
    twice.resize(1280, 720);
    twice.resize(1280, 720);
    let a = once.config().unwrap();
    let b = twice.config().unwrap();
    assert_eq!((a.width, a.height, a.format, a.alpha_mode), (b.width, b.height, b.format, b.alpha_mode));
    assert_eq!((b.width, b.height), (1280, 720));
}

#[test]
fn resize_keeps_format_and_alpha_mode() {
    let mut r = ready(800, 600);
    let c = r.resize(640, 480).unwrap();
    assert_eq!(c.format, TextureFormat::Bgra8UnormSrgb);
    assert_eq!(c.alpha_mode, CompositeAlphaMode::Opaque);
}

#[test]
fn acquired_texture_draws_every_vertex() {
    let r = ready(800, 600);
    assert!(matches!(r.frame_action(Acquired::Texture), FrameAction::Draw { vertex_count: 3 }));
}

#[test]
fn lost_surface_is_reconfigured_with_stored_config() {
    let mut r = ready(800, 600);
    r.resize(300, 200);
    match r.frame_action(Acquired::SurfaceLost) {
        FrameAction::Reconfigure(c) => assert_eq!((c.width, c.height), (300, 200)),
        _ => panic!("expected a reconfigure"),
    }
}

#[test]
fn other_acquire_error_drops_frame() {
    let r = ready(800, 600);
    assert!(matches!(r.frame_action(Acquired::OtherError), FrameAction::Drop));
}

#[test]
fn resize_keeps_present_mode() {
    let mut r = ready(800, 600);
    let c = r.resize(0, 0).unwrap();
    assert_eq!(c.present_mode, PresentMode::Fifo);
}
