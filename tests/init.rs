use vellum::{surface_config, AdapterRequest, GraphicsError, InitCommand, InitEvent, InitStage, Initializer};
use wgpu::{CompositeAlphaMode, TextureFormat};

fn caps() -> InitEvent {
    InitEvent::Capabilities {
        formats: vec![TextureFormat::Rgba8UnormSrgb, TextureFormat::Bgra8Unorm],
        alpha_modes: vec![CompositeAlphaMode::PreMultiplied, CompositeAlphaMode::Opaque],
    }
}

fn preferred() -> AdapterRequest {
    AdapterRequest { low_power: true, compatible_surface: true, force_fallback_adapter: false }
}

fn fallback() -> AdapterRequest {
    AdapterRequest { low_power: true, compatible_surface: false, force_fallback_adapter: true }
}

#[test]
fn successful_bring_up_for_800_by_600() {
    let mut init = Initializer::new(800, 600);
    assert_eq!(init.stage(), InitStage::Start);
    assert!(matches!(init.step(InitEvent::Begin), InitCommand::CreateSurface));
    assert_eq!(init.stage(), InitStage::AwaitingSurface);
    match init.step(InitEvent::SurfaceCreated) {
        InitCommand::RequestAdapter(r) => assert_eq!(r, preferred()),
        _ => panic!("expected an adapter request"),
    }
    assert!(matches!(init.step(InitEvent::AdapterFound), InitCommand::RequestDevice));
    assert!(matches!(init.step(InitEvent::DeviceReady), InitCommand::QueryCapabilities));
    match init.step(caps()) {
        InitCommand::Finish(c) => {
            assert_eq!((c.width, c.height), (800, 600));
            assert_eq!(c.format, TextureFormat::Rgba8UnormSrgb);
            assert_eq!(c.alpha_mode, CompositeAlphaMode::PreMultiplied);
        }
        _ => panic!("expected a finished configuration"),
    }
    assert_eq!(init.stage(), InitStage::Configured);
}

#[test]
fn missing_adapter_retries_with_fallback() {
    let mut init = Initializer::new(800, 600);
    init.step(InitEvent::Begin);
    init.step(InitEvent::SurfaceCreated);
    match init.step(InitEvent::AdapterMissing) {
        InitCommand::RequestAdapter(r) => assert_eq!(r, fallback()),
        _ => panic!("expected the fallback request"),
    }
    assert_eq!(init.stage(), InitStage::AwaitingFallbackAdapter);
    assert!(matches!(init.step(InitEvent::AdapterFound), InitCommand::RequestDevice));
}

#[test]
fn no_adapter_after_both_attempts() {
    let mut init = Initializer::new(800, 600);
    init.step(InitEvent::Begin);
    init.step(InitEvent::SurfaceCreated);
    init.step(InitEvent::AdapterMissing);
    assert!(matches!(
        init.step(InitEvent::AdapterMissing),
        InitCommand::Abort(GraphicsError::NoAdapterFound)
    ));
    assert_eq!(init.stage(), InitStage::Failed);
}

#[test]
fn surface_failure_aborts() {
    let mut init = Initializer::new(800, 600);
    init.step(InitEvent::Begin);
    assert!(matches!(
        init.step(InitEvent::SurfaceFailed),
        InitCommand::Abort(GraphicsError::SurfaceCreationFailed)
    ));
    assert_eq!(init.stage(), InitStage::Failed);
}

#[test]
fn device_failure_aborts() {
    let mut init = Initializer::new(800, 600);
    init.step(InitEvent::Begin);
    init.step(InitEvent::SurfaceCreated);
    init.step(InitEvent::AdapterFound);
    assert!(matches!(
        init.step(InitEvent::DeviceFailed),
        InitCommand::Abort(GraphicsError::DeviceRequestFailed)
    ));
    assert_eq!(init.stage(), InitStage::Failed);
}

#[test]
fn empty_capabilities_abort() {
    let mut init = Initializer::new(800, 600);
    init.step(InitEvent::Begin);
    init.step(InitEvent::SurfaceCreated);
    init.step(InitEvent::AdapterFound);
    init.step(InitEvent::DeviceReady);
    let ev = InitEvent::Capabilities { formats: vec![], alpha_modes: vec![CompositeAlphaMode::Opaque] };
    assert!(matches!(init.step(ev), InitCommand::Abort(GraphicsError::NoSurfaceFormat)));
    assert_eq!(init.stage(), InitStage::Failed);
}

#[test]
fn zero_sized_window_configures_one_by_one() {
    let c = surface_config(0, 0, &vec![TextureFormat::Bgra8Unorm], &vec![CompositeAlphaMode::Auto]).unwrap();
    assert_eq!((c.width, c.height), (1, 1));
    assert_eq!(c.format, TextureFormat::Bgra8Unorm);
    assert_eq!(c.alpha_mode, CompositeAlphaMode::Auto);
}

#[test]
fn no_alpha_mode_is_an_error() {
    let r = surface_config(800, 600, &vec![TextureFormat::Bgra8Unorm], &vec![]);
    assert!(matches!(r, Err(GraphicsError::NoSurfaceFormat)));
}

#[test]
fn configuration_presents_in_vertical_sync() {
    let c = surface_config(800, 600, &vec![TextureFormat::Bgra8Unorm], &vec![CompositeAlphaMode::Opaque]).unwrap();
    assert_eq!(c.present_mode, vellum::PresentMode::Fifo);
}
