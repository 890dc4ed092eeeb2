//! Render orchestration core for a small real-time 3D scene renderer.
//!
//! The crate holds the verified logic of the renderer: the surface
//! configuration and its resize policy, the texture, material and pipeline
//! bookkeeping, the camera input controller, the scene object manager and
//! the per-frame acquisition / draw planning policy.  The GPU itself, the
//! windowing layer and the floating-point matrix arithmetic live outside,
//! in the host program around this library.

pub mod camera;
pub mod context;
pub mod material;
pub mod object;
pub mod renderer;
pub mod resources;
pub mod shader;
pub mod texture;

pub use renderer::RendererCore;
pub use shader::ShaderType;
