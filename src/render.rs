use vstd::prelude::*;

use crate::camera::CameraMode;
use crate::sky_map::{channel, lemma_uniform_sample, Rgba, SkyMap};
use crate::viewport::{frame_len_of, Viewport};

verus! {

/// What the geometric stage found for the view ray of one pixel.
#[derive(Clone, Copy, Debug, PartialEq, Eq, Structural)]
pub struct PixelSample {
    /// Texture column that the ray's longitude falls on, before clamping.
    pub u: i64,
    /// Texture row that the ray's latitude falls on, before clamping.
    pub v: i64,
    /// The ray lies within the tolerance of a latitude or longitude line.
    pub on_grid: bool,
    /// The bent ray meets the sphere of the black hole.
    pub absorbed: bool,
}

/// How a ray that meets the black hole is drawn.
#[derive(Clone, Copy, Debug, PartialEq, Eq, Structural)]
pub enum RayStrategy {
    /// Every ray samples the sky, whether it meets the black hole or not.
    TexturedLensingOnly,
    /// A ray that meets the black hole is drawn opaque black.
    TexturedWithAbsorption,
}

/// Opaque white, the color of the grid lines.
pub open spec fn white() -> Rgba {
    Rgba { r: 255, g: 255, b: 255, a: 255 }
}

/// Opaque black, the color of an absorbed ray.
pub open spec fn black() -> Rgba {
    Rgba { r: 0, g: 0, b: 0, a: 255 }
}

/// The color of one pixel: black where the strategy absorbs and the ray is
/// absorbed, else white where the grid is shown and the ray is on a grid
/// line, else the sky texel that the ray points at.
pub open spec fn shade_of(sky: SkyMap, s: PixelSample, show_grid: bool, strategy: RayStrategy) -> Rgba {
    if strategy == RayStrategy::TexturedWithAbsorption && s.absorbed {
        black()
    } else if show_grid && s.on_grid {
        white()
    } else {
        sky.sample_of(s.u as int, s.v as int)
    }
}

/// The RGBA bytes of a frame, four for each sample, in the samples' order.
pub open spec fn frame_of(
    sky: SkyMap,
    samples: Seq<PixelSample>,
    show_grid: bool,
    strategy: RayStrategy,
) -> Seq<u8> {
    Seq::new(
        (samples.len() * 4) as nat,
        |k: int| channel(shade_of(sky, samples[k / 4], show_grid, strategy), k % 4),
    )
}

/// The color of one pixel.
pub fn shade(sky: &SkyMap, sample: &PixelSample, show_grid: bool, strategy: RayStrategy) -> (r: Rgba)
    requires
        sky.wf(),
    ensures
        r == shade_of(*sky, *sample, show_grid, strategy),
{
    let absorbs: bool = match strategy {
        RayStrategy::TexturedLensingOnly => false,
        RayStrategy::TexturedWithAbsorption => true,
    };
    if absorbs && sample.absorbed {
        Rgba { r: 0, g: 0, b: 0, a: 255 }
    } else if show_grid && sample.on_grid {
        Rgba { r: 255, g: 255, b: 255, a: 255 }
    } else {
        sky.sample(sample.u, sample.v)
    }
}

/// The RGBA bytes of a frame, one pixel for each sample.
pub fn compose_frame(
    sky: &SkyMap,
    samples: &Vec<PixelSample>,
    show_grid: bool,
    strategy: RayStrategy,
) -> (r: Vec<u8>)
    requires
        sky.wf(),
    ensures
        r@ == frame_of(*sky, samples@, show_grid, strategy),
{
    let mut out: Vec<u8> = Vec::new();
    let mut i: usize = 0;
    while i < samples.len()
        invariant
            sky.wf(),
            i <= samples@.len(),
            out@.len() == i * 4,
            forall|k: int|
                0 <= k < i * 4 ==> #[trigger] out@[k] == channel(
                    shade_of(*sky, samples@[k / 4], show_grid, strategy),
                    k % 4,
                ),
        decreases samples@.len() - i,
    {
        let c: Rgba = shade(sky, &samples[i], show_grid, strategy);
        out.push(c.r);
        out.push(c.g);
        out.push(c.b);
        out.push(c.a);
        proof {
            assert forall|k: int| 0 <= k < (i + 1) * 4 implies #[trigger] out@[k] == channel(
                shade_of(*sky, samples@[k / 4], show_grid, strategy),
                k % 4,
            ) by {
                if k >= i * 4 {
                    assert(k / 4 == i && k % 4 == k - i * 4) by (nonlinear_arith)
                        requires
                            i * 4 <= k < (i + 1) * 4,
                    ;
                }
            }
        }
        i = i + 1;
    }
    assert(out@ =~= frame_of(*sky, samples@, show_grid, strategy));
    out
}

/// Renders one frame for `viewport`: `samples` holds the pixels in row-major
/// order. `None` where there is not one sample per pixel, or where the frame
/// would not fit in memory.
pub fn render_skybox_with_lensing(
    sky: &SkyMap,
    viewport: &Viewport,
    camera: &CameraMode,
    samples: &Vec<PixelSample>,
    strategy: RayStrategy,
) -> (r: Option<Vec<u8>>)
    requires
        sky.wf(),
    ensures
        r is Some <==> (samples@.len() == viewport.pixel_count() && frame_len_of(
            viewport.width as int,
            viewport.height as int,
        ) <= usize::MAX),
        r is Some ==> r->0@ == frame_of(*sky, samples@, camera.show_grid, strategy),
{
    match viewport.frame_len() {
        None => None,
        Some(n) => {
            if samples.len() != n / 4 {
                None
            } else {
                Some(compose_frame(sky, samples, camera.show_grid, strategy))
            }
        },
    }
}

/// Toggling the grid overlay twice gives back the same frame, byte for byte.
pub proof fn lemma_grid_toggled_twice_same_frame(
    sky: SkyMap,
    camera: CameraMode,
    samples: Seq<PixelSample>,
    strategy: RayStrategy,
)
    ensures
        frame_of(sky, samples, camera.toggled().toggled().show_grid, strategy) == frame_of(
            sky,
            samples,
            camera.show_grid,
            strategy,
        ),
{
}

/// With the grid off and no absorption, a texture of one color gives a frame
/// of that color in every pixel, whatever the rays point at.
pub proof fn lemma_uniform_texture_uniform_frame(
    sky: SkyMap,
    c: Rgba,
    samples: Seq<PixelSample>,
)
    requires
        sky.wf(),
        sky.is_uniform(c),
    ensures
        forall|k: int|
            0 <= k < samples.len() * 4 ==> #[trigger] frame_of(
                sky,
                samples,
                false,
                RayStrategy::TexturedLensingOnly,
            )[k] == channel(c, k % 4),
{
    assert forall|k: int| 0 <= k < samples.len() * 4 implies #[trigger] frame_of(
        sky,
        samples,
        false,
        RayStrategy::TexturedLensingOnly,
    )[k] == channel(c, k % 4) by {
        let s = samples[k / 4];
        lemma_uniform_sample(sky, c, s.u as int, s.v as int);
    }
}

} // verus!
