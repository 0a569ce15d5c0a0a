//! A small real-time rendering host: fixed-timestep frame pacing, a flat scene of
//! drawable entities, and the lifecycle of a graphics context, with every decision
//! stated as a contract and proved.
pub mod clock;
pub mod scene;
pub mod graphics;
pub mod init;
pub mod driver;

pub use clock::GameLoop;
pub use scene::{Entity, Scene, Vertex, WorldVertex};
pub use graphics::{Acquired, FrameAction, FramePlan, GraphicsError, GraphicsState, PresentMode, Renderer, SurfaceConfig};
pub use init::{surface_config, AdapterRequest, InitCommand, InitEvent, InitStage, Initializer};
pub use driver::FrameDriver;
