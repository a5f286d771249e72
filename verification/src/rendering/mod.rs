pub mod coords;
pub mod frame_laws;
pub mod prepass_laws;
pub mod render;
pub mod transform;
pub mod window;

pub use render::{Camera, Frame, Layer, Projection, RenderCommand, Renderer};
pub use transform::{Pose, Quaternion, Transform, Vector3};
pub use window::{
    Placement, PresentMode, ScreenMode, WindowAction, WindowBuilder, WindowConfig, WindowStep,
};
