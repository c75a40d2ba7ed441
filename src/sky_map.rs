use vstd::prelude::*;

verus! {

/// One RGBA color.
#[derive(Clone, Copy, Debug, PartialEq, Eq, Structural)]
pub struct Rgba {
    pub r: u8,
    pub g: u8,
    pub b: u8,
    pub a: u8,
}

/// Channel `j` of a color: red, green, blue, alpha for `j` from 0 to 3.
pub open spec fn channel(c: Rgba, j: int) -> u8 {
    if j == 0 {
        c.r
    } else if j == 1 {
        c.g
    } else if j == 2 {
        c.b
    } else {
        c.a
    }
}

/// The color made of the four bytes of `s` that start at `k`.
pub open spec fn rgba_at(s: Seq<u8>, k: int) -> Rgba {
    Rgba { r: s[k], g: s[k + 1], b: s[k + 2], a: s[k + 3] }
}

/// A texel coordinate moved into `[0, dim - 1]`.
pub open spec fn clamp_coord(c: int, dim: int) -> int {
    if c < 0 {
        0
    } else if c >= dim {
        dim - 1
    } else {
        c
    }
}

/// An equirectangular sky texture: `height` rows of `width` RGBA texels,
/// row-major, longitude across and latitude down.
#[derive(Debug)]
pub struct SkyMap {
    pub pixels: Vec<u8>,
    pub width: u32,
    pub height: u32,
}

impl SkyMap {
    /// The texture has texels and holds four bytes for each of them.
    pub open spec fn wf(&self) -> bool {
        &&& self.width > 0
        &&& self.height > 0
        &&& self.pixels@.len() == self.width * self.height * 4
    }

    /// Byte offset of the texel at column `u` and row `v`, each clamped to
    /// the texture.
    pub open spec fn offset_of(&self, u: int, v: int) -> int {
        (clamp_coord(v, self.height as int) * self.width + clamp_coord(u, self.width as int)) * 4
    }

    /// The color of the texel at column `u` and row `v`, each clamped to the
    /// texture: nearest-neighbour sampling.
    pub open spec fn sample_of(&self, u: int, v: int) -> Rgba {
        rgba_at(self.pixels@, self.offset_of(u, v))
    }

    /// Every texel of the texture has color `c`.
    pub open spec fn is_uniform(&self, c: Rgba) -> bool {
        forall|k: int| 0 <= k < self.pixels@.len() ==> #[trigger] self.pixels@[k] == channel(c, k % 4)
    }

    /// A texture from decoded RGBA bytes, or `None` where a side is zero or
    /// the byte count is not four per texel.
    pub fn from_rgba(pixels: Vec<u8>, width: u32, height: u32) -> (r: Option<SkyMap>)
        ensures
            r is Some <==> (width > 0 && height > 0 && pixels@.len() == width * height * 4),
            r is Some ==> r->0.wf() && r->0.pixels@ == pixels@ && r->0.width == width
                && r->0.height == height,
    {
        if width == 0 || height == 0 {
            return None;
        }
        let w: u64 = width as u64;
        let h: u64 = height as u64;
        assert(w * h <= 0xffff_ffff_ffff_ffff) by (nonlinear_arith)
            requires
                w <= 0xffff_ffff,
                h <= 0xffff_ffff,
        ;
        let texels: u64 = w * h;
        assert(texels == width * height);
        let len: usize = pixels.len();
        if texels > (usize::MAX / 4) as u64 {
            proof {
                let m: int = usize::MAX as int;
                assert(texels * 4 > m) by (nonlinear_arith)
                    requires
                        texels > m / 4,
                        m >= 0,
                ;
            }
            assert(pixels@.len() != width * height * 4);
            return None;
        }
        let n: usize = texels as usize * 4;
        if len != n {
            None
        } else {
            Some(SkyMap { pixels, width, height })
        }
    }

    /// Byte offset of the texel at column `u` and row `v`, each clamped to
    /// the texture.
    pub fn texel_offset(&self, u: i64, v: i64) -> (r: usize)
        requires
            self.wf(),
        ensures
            r == self.offset_of(u as int, v as int),
            r + 4 <= self.pixels@.len(),
            r % 4 == 0,
    {
        let cu: u32 = clamp_texel(u, self.width);
        let cv: u32 = clamp_texel(v, self.height);
        let w: u32 = self.width;
        let h: u32 = self.height;
        let len: usize = self.pixels.len();
        assert((cv * w + cu) * 4 + 4 <= len) by (nonlinear_arith)
            requires
                cu < w,
                cv < h,
                len == w * h * 4,
        ;
        (cv as usize * w as usize + cu as usize) * 4
    }

    /// The color of the texel at column `u` and row `v`, each clamped to the
    /// texture.
    pub fn sample(&self, u: i64, v: i64) -> (r: Rgba)
        requires
            self.wf(),
        ensures
            r == self.sample_of(u as int, v as int),
    {
        let k: usize = self.texel_offset(u, v);
        Rgba {
            r: self.pixels[k],
            g: self.pixels[k + 1],
            b: self.pixels[k + 2],
            a: self.pixels[k + 3],
        }
    }
}

/// A texel coordinate moved into `[0, dim - 1]`.
pub fn clamp_texel(c: i64, dim: u32) -> (r: u32)
    requires
        dim > 0,
    ensures
        r == clamp_coord(c as int, dim as int),
        r < dim,
{
    if c < 0 {
        0
    } else if c >= dim as i64 {
        dim - 1
    } else {
        c as u32
    }
}

/// On a texture of one color every sample has that color, wherever it is
/// taken.
pub proof fn lemma_uniform_sample(sky: SkyMap, c: Rgba, u: int, v: int)
    requires
        sky.wf(),
        sky.is_uniform(c),
    ensures
        sky.sample_of(u, v) == c,
{
    let cu = clamp_coord(u, sky.width as int);
    let cv = clamp_coord(v, sky.height as int);
    let w = sky.width as int;
    let h = sky.height as int;
    let t = cv * w + cu;
    assert(t * 4 + 4 <= w * h * 4) by (nonlinear_arith)
        requires
            0 <= cu < w,
            0 <= cv < h,
            t == cv * w + cu,
    ;
    let o = sky.offset_of(u, v);
    assert(o == t * 4);
    assert(o % 4 == 0 && (o + 1) % 4 == 1 && (o + 2) % 4 == 2 && (o + 3) % 4 == 3) by (nonlinear_arith)
        requires
            o == t * 4,
    ;
    assert(sky.pixels@[o] == channel(c, o % 4));
    assert(sky.pixels@[o + 1] == channel(c, (o + 1) % 4));
    assert(sky.pixels@[o + 2] == channel(c, (o + 2) % 4));
    assert(sky.pixels@[o + 3] == channel(c, (o + 3) % 4));
}

} // verus!
