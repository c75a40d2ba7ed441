//! Skybox rendering core for an orbiting camera: the discrete camera state,
//! the viewport and its projection branch, an equirectangular sky texture and
//! the per-pixel composition of a frame.
//!
//! The floating-point geometry (view rays, lensing, spherical coordinates)
//! happens outside this crate and reaches it as one [`PixelSample`] per pixel.

pub mod camera;
pub mod render;
pub mod sky_map;
pub mod viewport;

pub use camera::{init_camera, toggle_grid, CameraMode};
pub use render::{compose_frame, render_skybox_with_lensing, shade, PixelSample, RayStrategy};
pub use sky_map::{clamp_texel, Rgba, SkyMap};
pub use viewport::{fov_branch, set_viewport_size, FovBranch, Viewport};
