//! The graphics context: its two states, the decisions taken while it is being
//! brought up, and the per-frame and resize decisions once it is ready.
//!
//! The GPU objects themselves are held by the host; this module decides which
//! call comes next and what configuration the surface gets.
use crate::scene::{vertex_total, world_vertices, Scene};
use vstd::prelude::*;
use wgpu::{CompositeAlphaMode, TextureFormat};

verus! {

#[verifier::external_type_specification]
#[verifier::external_body]
pub struct ExTextureFormat(TextureFormat);

#[verifier::external_type_specification]
#[verifier::external_body]
pub struct ExCompositeAlphaMode(CompositeAlphaMode);

/// Why bringing up the graphics context failed.
#[derive(Clone, Copy, Debug, PartialEq, Eq, Structural)]
pub enum GraphicsError {
    SurfaceCreationFailed,
    NoAdapterFound,
    DeviceRequestFailed,
    NoSurfaceFormat,
}

/// How finished frames are shown.
#[derive(Clone, Copy, Debug, PartialEq, Eq, Structural)]
pub enum PresentMode {
    /// Frames wait for vertical sync, in order.
    Fifo,
    /// Frames are shown at once, without waiting for vertical sync.
    Immediate,
}

/// The negotiated surface configuration.
#[derive(Clone, Copy, Debug)]
pub struct SurfaceConfig {
    pub width: u32,
    pub height: u32,
    pub format: TextureFormat,
    pub alpha_mode: CompositeAlphaMode,
    pub present_mode: PresentMode,
}

/// A window dimension as the surface takes it: never zero.
pub open spec fn clamp_dim(d: u32) -> u32 {
    if d == 0 {
        1
    } else {
        d
    }
}

pub(crate) fn clamp_to_one(d: u32) -> (r: u32)
    ensures
        r == clamp_dim(d),
{
    if d == 0 {
        1
    } else {
        d
    }
}

/// The stored configuration after a resize to `width` by `height`: nothing
/// before the context is ready, else the same configuration with the clamped size.
pub open spec fn resized(stored: Option<SurfaceConfig>, width: u32, height: u32) -> Option<
    SurfaceConfig,
> {
    match stored {
        None => None,
        Some(c) => Some(SurfaceConfig { width: clamp_dim(width), height: clamp_dim(height), ..c }),
    }
}

/// The two states of the context. A ready context holds its configuration.
pub enum GraphicsState {
    Uninitialized,
    Ready(SurfaceConfig),
}

/// What the host should do to start a frame.
#[derive(Clone, Copy, Debug, PartialEq, Eq, Structural)]
pub enum FramePlan {
    /// The context is not ready: make no GPU call.
    NotReady,
    /// No vertex buffer has been built yet: draw nothing.
    NoGeometry,
    /// Acquire the next surface texture.
    AcquireTexture,
}

/// How acquiring the next surface texture went.
#[derive(Clone, Copy, Debug, PartialEq, Eq, Structural)]
pub enum Acquired {
    Texture,
    SurfaceLost,
    OtherError,
}

/// What the host should do with the acquired texture.
#[derive(Clone, Copy, Debug)]
pub enum FrameAction {
    /// Clear, draw `vertex_count` vertices as one instance, submit and present.
    Draw { vertex_count: u32 },
    /// Configure the surface again with this configuration and skip the frame.
    Reconfigure(SurfaceConfig),
    /// Skip the frame.
    Drop,
}

/// The graphics context together with the scene it draws.
pub struct Renderer {
    pub state: GraphicsState,
    pub scene: Scene,
}

impl Renderer {
    /// The stored surface configuration, present exactly when the context is ready.
    pub open spec fn stored(&self) -> Option<SurfaceConfig> {
        match self.state {
            GraphicsState::Uninitialized => None,
            GraphicsState::Ready(c) => Some(c),
        }
    }

    /// The scene is well formed and a stored size is never zero.
    pub open spec fn wf(&self) -> bool {
        &&& self.scene.wf()
        &&& self.stored() matches Some(c) ==> c.width >= 1 && c.height >= 1
    }

    pub fn new() -> (r: Self)
        ensures
            r.wf(),
            r.stored() is None,
            r.scene.is_initial(),
    {
        Renderer { state: GraphicsState::Uninitialized, scene: Scene::new() }
    }

    pub fn is_ready(&self) -> (r: bool)
        ensures
            r == self.stored() is Some,
    {
        match self.state {
            GraphicsState::Uninitialized => false,
            GraphicsState::Ready(_) => true,
        }
    }

    /// The stored surface configuration, if the context is ready.
    pub fn config(&self) -> (r: Option<SurfaceConfig>)
        ensures
            r == self.stored(),
    {
        match self.state {
            GraphicsState::Uninitialized => None,
            GraphicsState::Ready(c) => Some(c),
        }
    }

    /// Completes bringing up the context. On success the scene's vertex buffer
    /// is built and the configuration stored, in one step; on failure nothing
    /// changes and the error is handed back.
    pub fn initialize(&mut self, outcome: Result<SurfaceConfig, GraphicsError>) -> (r: Result<
        (),
        GraphicsError,
    >)
        requires
            old(self).wf(),
            outcome matches Ok(c) ==> c.width >= 1 && c.height >= 1,
        ensures
            final(self).wf(),
            final(self).scene.entities() == old(self).scene.entities(),
            match outcome {
                Ok(c) => {
                    &&& r is Ok
                    &&& final(self).stored() == Some(c)
                    &&& final(self).scene.buffer() == Some(world_vertices(old(self).scene.entities()))
                },
                Err(e) => {
                    &&& r == Err::<(), GraphicsError>(e)
                    &&& final(self).stored() == old(self).stored()
                    &&& final(self).scene.buffer() == old(self).scene.buffer()
                },
            },
    {
        match outcome {
            Ok(c) => {
                self.scene.initialize_buffer();
                self.state = GraphicsState::Ready(c);
                Ok(())
            },
            Err(e) => Err(e),
        }
    }

    /// Follows the window to a new size. Before the context is ready this does
    /// nothing; after, the stored size becomes the clamped one and the
    /// configuration to apply to the surface is returned.
    pub fn resize(&mut self, width: u32, height: u32) -> (r: Option<SurfaceConfig>)
        requires
            old(self).wf(),
        ensures
            final(self).wf(),
            final(self).stored() == resized(old(self).stored(), width, height),
            r == final(self).stored(),
            final(self).scene == old(self).scene,
    {
        match self.state {
            GraphicsState::Uninitialized => None,
            GraphicsState::Ready(c) => {
                let next = SurfaceConfig {
                    width: clamp_to_one(width),
                    height: clamp_to_one(height),
                    ..c
                };
                self.state = GraphicsState::Ready(next);
                Some(next)
            },
        }
    }

    /// Decides how a frame starts: no GPU call at all before the context is
    /// ready, nothing to draw before the first vertex buffer, else acquire a
    /// texture.
    pub fn render(&self) -> (r: FramePlan)
        ensures
            r == FramePlan::NotReady <==> self.stored() is None,
            r == FramePlan::NoGeometry <==> (self.stored() is Some && self.scene.buffer() is None),
            r == FramePlan::AcquireTexture <==> (self.stored() is Some
                && self.scene.buffer() is Some),
    {
        if !self.is_ready() {
            FramePlan::NotReady
        } else if self.scene.vertex_buffer().is_none() {
            FramePlan::NoGeometry
        } else {
            FramePlan::AcquireTexture
        }
    }

    /// Decides what becomes of a frame once a texture was asked for: a lost
    /// surface is configured again with the stored configuration, any other
    /// failure drops the frame, and a texture is drawn with every scene vertex.
    pub fn frame_action(&self, acquired: Acquired) -> (r: FrameAction)
        requires
            self.wf(),
            self.stored() is Some,
        ensures
            match acquired {
                Acquired::Texture => r == FrameAction::Draw {
                    vertex_count: vertex_total(self.scene.entities()) as u32,
                },
                Acquired::SurfaceLost => r == FrameAction::Reconfigure(self.stored()->Some_0),
                Acquired::OtherError => r == FrameAction::Drop,
            },
    {
        match acquired {
            Acquired::Texture => FrameAction::Draw { vertex_count: self.scene.vertex_count() },
            Acquired::SurfaceLost => match self.state {
                GraphicsState::Ready(c) => FrameAction::Reconfigure(c),
                GraphicsState::Uninitialized => FrameAction::Drop,
            },
            Acquired::OtherError => FrameAction::Drop,
        }
    }
}

/// Resizing twice to the same size leaves the configuration that resizing once
/// left.
pub proof fn lemma_resize_idempotent(stored: Option<SurfaceConfig>, width: u32, height: u32)
    ensures
        resized(resized(stored, width, height), width, height) == resized(stored, width, height),
{
}

/// A resize never stores a zero dimension: a zero becomes one, and any other
/// size is kept.
pub proof fn lemma_resize_clamps(stored: Option<SurfaceConfig>, width: u32, height: u32)
    requires
        stored is Some,
    ensures
        resized(stored, width, height)->Some_0.width >= 1,
        resized(stored, width, height)->Some_0.height >= 1,
        width == 0 ==> resized(stored, width, height)->Some_0.width == 1,
        height == 0 ==> resized(stored, width, height)->Some_0.height == 1,
        width > 0 ==> resized(stored, width, height)->Some_0.width == width,
        height > 0 ==> resized(stored, width, height)->Some_0.height == height,
{
}

} // verus!
