use vstd::prelude::*;

verus! {

/// The part of the orbit camera that is not an angle or a distance: whether
/// the latitude/longitude grid is drawn over the sky.
#[derive(Clone, Copy, Debug, PartialEq, Eq, Structural)]
pub struct CameraMode {
    pub show_grid: bool,
}

impl CameraMode {
    /// The camera mode after one toggle of the grid overlay.
    pub open spec fn toggled(self) -> CameraMode {
        CameraMode { show_grid: !self.show_grid }
    }
}

/// The camera mode of a new session: no grid overlay.
pub fn init_camera() -> (r: CameraMode)
    ensures
        r.show_grid == false,
{
    CameraMode { show_grid: false }
}

/// Flips the grid overlay flag.
pub fn toggle_grid(camera: &mut CameraMode)
    ensures
        *final(camera) == old(camera).toggled(),
        final(camera).show_grid == !old(camera).show_grid,
{
    camera.show_grid = !camera.show_grid;
}

/// Toggling the grid twice restores the camera mode.
pub proof fn lemma_toggle_twice(camera: CameraMode)
    ensures
        camera.toggled().toggled() == camera,
{
}

} // verus!
