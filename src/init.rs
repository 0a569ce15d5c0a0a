//! Bringing up the graphics context, one awaited GPU call at a time.
//!
//! The host performs each command and reports the outcome as an event; the
//! initializer decides the next command. Adapters are requested preferring low
//! power and compatibility with the window's surface; if none is found, once
//! more without the compatibility requirement and with the software fallback
//! forced on.
use crate::graphics::{clamp_dim, clamp_to_one, GraphicsError, PresentMode, SurfaceConfig};
use vstd::prelude::*;
use wgpu::{CompositeAlphaMode, TextureFormat};

verus! {

/// Where bringing up the context stands.
#[derive(Clone, Copy, Debug, PartialEq, Eq, Structural)]
pub enum InitStage {
    Start,
    AwaitingSurface,
    AwaitingAdapter,
    AwaitingFallbackAdapter,
    AwaitingDevice,
    AwaitingCapabilities,
    Configured,
    Failed,
}

/// The options of one adapter request.
#[derive(Clone, Copy, Debug, PartialEq, Eq, Structural)]
pub struct AdapterRequest {
    pub low_power: bool,
    pub compatible_surface: bool,
    pub force_fallback_adapter: bool,
}

/// The outcome of the previous command.
pub enum InitEvent {
    Begin,
    SurfaceCreated,
    SurfaceFailed,
    AdapterFound,
    AdapterMissing,
    DeviceReady,
    DeviceFailed,
    /// The formats and alpha modes the surface supports, in the order the
    /// driver reports them.
    Capabilities { formats: Vec<TextureFormat>, alpha_modes: Vec<CompositeAlphaMode> },
}

/// The next thing for the host to do.
#[derive(Clone, Copy, Debug)]
pub enum InitCommand {
    CreateSurface,
    RequestAdapter(AdapterRequest),
    RequestDevice,
    QueryCapabilities,
    /// Apply this configuration to the surface, build the pipeline, and hand the
    /// configuration to the renderer.
    Finish(SurfaceConfig),
    /// Give up: the host loop ends.
    Abort(GraphicsError),
}

pub open spec fn preferred_request() -> AdapterRequest {
    AdapterRequest { low_power: true, compatible_surface: true, force_fallback_adapter: false }
}

pub open spec fn fallback_request() -> AdapterRequest {
    AdapterRequest { low_power: true, compatible_surface: false, force_fallback_adapter: true }
}

/// The events that fit each stage.
pub open spec fn fits(stage: InitStage, event: InitEvent) -> bool {
    match stage {
        InitStage::Start => event is Begin,
        InitStage::AwaitingSurface => event is SurfaceCreated || event is SurfaceFailed,
        InitStage::AwaitingAdapter | InitStage::AwaitingFallbackAdapter => event is AdapterFound
            || event is AdapterMissing,
        InitStage::AwaitingDevice => event is DeviceReady || event is DeviceFailed,
        InitStage::AwaitingCapabilities => event is Capabilities,
        InitStage::Configured | InitStage::Failed => false,
    }
}

/// The configuration for a window of `width` by `height` from the surface's
/// capabilities: the first format and the first alpha mode reported, the
/// window size with each dimension at least one, and vertically synchronised
/// presentation.
pub open spec fn config_from(
    width: u32,
    height: u32,
    formats: Seq<TextureFormat>,
    alpha_modes: Seq<CompositeAlphaMode>,
) -> Result<SurfaceConfig, GraphicsError> {
    if formats.len() == 0 || alpha_modes.len() == 0 {
        Err(GraphicsError::NoSurfaceFormat)
    } else {
        Ok(
            SurfaceConfig {
                width: clamp_dim(width),
                height: clamp_dim(height),
                format: formats[0],
                alpha_mode: alpha_modes[0],
                present_mode: PresentMode::Fifo,
            },
        )
    }
}

/// The next stage and command for an event that fits the stage.
pub open spec fn transition(stage: InitStage, width: u32, height: u32, event: InitEvent) -> (
    InitStage,
    InitCommand,
) {
    match event {
        InitEvent::Begin => (InitStage::AwaitingSurface, InitCommand::CreateSurface),
        InitEvent::SurfaceCreated => (
            InitStage::AwaitingAdapter,
            InitCommand::RequestAdapter(preferred_request()),
        ),
        InitEvent::SurfaceFailed => (
            InitStage::Failed,
            InitCommand::Abort(GraphicsError::SurfaceCreationFailed),
        ),
        InitEvent::AdapterFound => (InitStage::AwaitingDevice, InitCommand::RequestDevice),
        InitEvent::AdapterMissing => if stage == InitStage::AwaitingAdapter {
            (InitStage::AwaitingFallbackAdapter, InitCommand::RequestAdapter(fallback_request()))
        } else {
            (InitStage::Failed, InitCommand::Abort(GraphicsError::NoAdapterFound))
        },
        InitEvent::DeviceReady => (InitStage::AwaitingCapabilities, InitCommand::QueryCapabilities),
        InitEvent::DeviceFailed => (
            InitStage::Failed,
            InitCommand::Abort(GraphicsError::DeviceRequestFailed),
        ),
        InitEvent::Capabilities { formats, alpha_modes } => match config_from(
            width,
            height,
            formats@,
            alpha_modes@,
        ) {
            Ok(c) => (InitStage::Configured, InitCommand::Finish(c)),
            Err(e) => (InitStage::Failed, InitCommand::Abort(e)),
        },
    }
}

/// Brings up the graphics context for a window of a given size.
pub struct Initializer {
    stage: InitStage,
    width: u32,
    height: u32,
}

impl Initializer {
    pub closed spec fn stage_of(&self) -> InitStage {
        self.stage
    }

    pub closed spec fn width_of(&self) -> u32 {
        self.width
    }

    pub closed spec fn height_of(&self) -> u32 {
        self.height
    }

    /// An initializer for a window whose inner size is `width` by `height`.
    pub fn new(width: u32, height: u32) -> (r: Self)
        ensures
            r.stage_of() == InitStage::Start,
            r.width_of() == width,
            r.height_of() == height,
    {
        Initializer { stage: InitStage::Start, width, height }
    }

    pub fn stage(&self) -> (r: InitStage)
        ensures
            r == self.stage_of(),
    {
        self.stage
    }

    /// Takes the outcome of the previous command and returns the next one.
    pub fn step(&mut self, event: InitEvent) -> (r: InitCommand)
        requires
            fits(old(self).stage_of(), event),
        ensures
            (final(self).stage_of(), r) == transition(
                old(self).stage_of(),
                old(self).width_of(),
                old(self).height_of(),
                event,
            ),
            final(self).width_of() == old(self).width_of(),
            final(self).height_of() == old(self).height_of(),
    {
        let (stage, command) = match event {
            InitEvent::Begin => (InitStage::AwaitingSurface, InitCommand::CreateSurface),
            InitEvent::SurfaceCreated => (
                InitStage::AwaitingAdapter,
                InitCommand::RequestAdapter(
                    AdapterRequest {
                        low_power: true,
                        compatible_surface: true,
                        force_fallback_adapter: false,
                    },
                ),
            ),
            InitEvent::SurfaceFailed => (
                InitStage::Failed,
                InitCommand::Abort(GraphicsError::SurfaceCreationFailed),
            ),
            InitEvent::AdapterFound => (InitStage::AwaitingDevice, InitCommand::RequestDevice),
            InitEvent::AdapterMissing => {
                if self.stage == InitStage::AwaitingAdapter {
                    (
                        InitStage::AwaitingFallbackAdapter,
                        InitCommand::RequestAdapter(
                            AdapterRequest {
                                low_power: true,
                                compatible_surface: false,
                                force_fallback_adapter: true,
                            },
                        ),
                    )
                } else {
                    (InitStage::Failed, InitCommand::Abort(GraphicsError::NoAdapterFound))
                }
            },
            InitEvent::DeviceReady => (
                InitStage::AwaitingCapabilities,
                InitCommand::QueryCapabilities,
            ),
            InitEvent::DeviceFailed => (
                InitStage::Failed,
                InitCommand::Abort(GraphicsError::DeviceRequestFailed),
            ),
            InitEvent::Capabilities { formats, alpha_modes } => {
                match surface_config(self.width, self.height, &formats, &alpha_modes) {
                    Ok(c) => (InitStage::Configured, InitCommand::Finish(c)),
                    Err(e) => (InitStage::Failed, InitCommand::Abort(e)),
                }
            },
        };
        self.stage = stage;
        command
    }
}

/// The surface configuration for a window of `width` by `height`: the first
/// reported format and alpha mode, each dimension at least one, presented in
/// vertical sync. Fails when the
/// surface reports no format or no alpha mode.
pub fn surface_config(
    width: u32,
    height: u32,
    formats: &Vec<TextureFormat>,
    alpha_modes: &Vec<CompositeAlphaMode>,
) -> (r: Result<SurfaceConfig, GraphicsError>)
    ensures
        r == config_from(width, height, formats@, alpha_modes@),
{
    if formats.len() == 0 || alpha_modes.len() == 0 {
        Err(GraphicsError::NoSurfaceFormat)
    } else {
        Ok(
            SurfaceConfig {
                width: clamp_to_one(width),
                height: clamp_to_one(height),
                format: formats[0],
                alpha_mode: alpha_modes[0],
                present_mode: PresentMode::Fifo,
            },
        )
    }
}

/// Bringing up the context reports that no adapter was found exactly when both
/// the preferred and the fallback request came back empty.
pub proof fn lemma_no_adapter_only_after_fallback(
    stage: InitStage,
    width: u32,
    height: u32,
    event: InitEvent,
)
    requires
        fits(stage, event),
    ensures
        transition(stage, width, height, event).1 == InitCommand::Abort(
            GraphicsError::NoAdapterFound,
        ) <==> (stage == InitStage::AwaitingFallbackAdapter && event is AdapterMissing),
        (stage == InitStage::AwaitingAdapter && event is AdapterMissing) ==> transition(
            stage,
            width,
            height,
            event,
        ).1 == InitCommand::RequestAdapter(fallback_request()),
{
}

/// A configuration handed to the renderer never has a zero dimension, mirrors
/// the window size wherever that size is not zero, and presents in vertical sync.
pub proof fn lemma_finish_mirrors_window(
    stage: InitStage,
    width: u32,
    height: u32,
    event: InitEvent,
)
    requires
        fits(stage, event),
        transition(stage, width, height, event).1 is Finish,
    ensures
        ({
            let c = transition(stage, width, height, event).1->Finish_0;
            &&& c.width >= 1 && c.height >= 1
            &&& width > 0 ==> c.width == width
            &&& height > 0 ==> c.height == height
            &&& c.present_mode == PresentMode::Fifo
        }),
{
}

} // verus!
