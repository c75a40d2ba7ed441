use vstd::prelude::*;

verus! {

/// Size in pixels of the surface that a frame is rendered for.
#[derive(Clone, Copy, Debug, PartialEq, Eq, Structural)]
pub struct Viewport {
    pub width: u32,
    pub height: u32,
}

/// Which field of view the perspective projection is built from.
#[derive(Clone, Copy, Debug, PartialEq, Eq, Structural)]
pub enum FovBranch {
    /// Landscape or square viewport: the stored horizontal field of view is
    /// used as it is.
    Wide,
    /// Portrait viewport: the stored field of view is scaled by the aspect
    /// ratio, so that the horizontal extent stays the same.
    Narrow,
}

/// The branch for a viewport of the given size: `Wide` exactly when the
/// aspect ratio `width / height` is at least one.
pub open spec fn fov_branch_of(width: int, height: int) -> FovBranch {
    if width >= height {
        FovBranch::Wide
    } else {
        FovBranch::Narrow
    }
}

/// Number of bytes of an RGBA frame of `width` by `height` pixels.
pub open spec fn frame_len_of(width: int, height: int) -> int {
    width * height * 4
}

impl Viewport {
    /// The viewport of a new session: 800 by 600 pixels.
    pub fn new() -> (r: Viewport)
        ensures
            r.width == 800,
            r.height == 600,
    {
        Viewport { width: 800, height: 600 }
    }

    /// Number of pixels of the viewport.
    pub open spec fn pixel_count(self) -> int {
        self.width * self.height
    }

    /// The projection branch for this viewport.
    pub fn fov_branch(&self) -> (r: FovBranch)
        ensures
            r == fov_branch_of(self.width as int, self.height as int),
    {
        fov_branch(self.width, self.height)
    }

    /// Number of bytes of a frame for this viewport, or `None` where it does
    /// not fit in `usize`.
    pub fn frame_len(&self) -> (r: Option<usize>)
        ensures
            r is Some <==> frame_len_of(self.width as int, self.height as int) <= usize::MAX,
            r is Some ==> r->0 == frame_len_of(self.width as int, self.height as int),
    {
        let w: u64 = self.width as u64;
        let h: u64 = self.height as u64;
        assert(w * h <= 0xffff_ffff_ffff_ffff) by (nonlinear_arith)
            requires
                w <= 0xffff_ffff,
                h <= 0xffff_ffff,
        ;
        let pixels: u64 = w * h;
        if pixels > (usize::MAX / 4) as u64 {
            None
        } else {
            Some(pixels as usize * 4)
        }
    }
}

impl Default for Viewport {
    fn default() -> (r: Viewport)
        ensures
            r.width == 800,
            r.height == 600,
    {
        Viewport::new()
    }
}

/// Replaces the viewport size, as on a resize of the host surface.
pub fn set_viewport_size(viewport: &mut Viewport, width: u32, height: u32)
    ensures
        final(viewport).width == width,
        final(viewport).height == height,
{
    viewport.width = width;
    viewport.height = height;
}

/// The projection branch for a viewport of `width` by `height` pixels.
pub fn fov_branch(width: u32, height: u32) -> (r: FovBranch)
    ensures
        r == fov_branch_of(width as int, height as int),
{
    if width >= height {
        FovBranch::Wide
    } else {
        FovBranch::Narrow
    }
}

/// Swapping the sides of a viewport that is not square switches the
/// projection branch.
pub proof fn lemma_swapped_sides_switch_branch(width: u32, height: u32)
    requires
        width != height,
    ensures
        fov_branch_of(width as int, height as int) != fov_branch_of(height as int, width as int),
{
}

/// A square viewport, aspect ratio exactly one, uses the stored field of view
/// unscaled.
pub proof fn lemma_square_viewport_is_wide(side: u32)
    ensures
        fov_branch_of(side as int, side as int) == FovBranch::Wide,
{
}

} // verus!
