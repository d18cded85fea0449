//! CPU-side composition of rasterized glyphs into a text texture.
//!
//! A glyph arrives as a coverage bitmap (one byte per pixel, row-major from
//! the top-left corner) together with its position on the texture. Glyphs are
//! blitted one after another into a single-channel buffer, clipped to the
//! texture bounds; a later glyph overwrites an earlier one where they overlap.
//! The finished buffer is expanded to RGBA with white color channels and the
//! coverage as alpha.

use vstd::arithmetic::div_mod::{
    lemma_fundamental_div_mod, lemma_fundamental_div_mod_converse, lemma_mod_bound,
};
use vstd::prelude::*;

verus! {

/// Width in pixels of the texture the text is rendered into.
pub const TEXTURE_WIDTH: usize = 512;

/// Height in pixels of the texture the text is rendered into.
pub const TEXTURE_HEIGHT: usize = 256;

/// A rasterized glyph placed on the texture: a row-major coverage bitmap of
/// `width * height` bytes whose top-left corner sits at `(x, y)` in texture
/// coordinates. The position may be negative or reach past the texture edge;
/// blitting clips to the texture.
pub struct GlyphBitmap {
    pub x: i32,
    pub y: i32,
    pub width: usize,
    pub height: usize,
    pub coverage: Vec<u8>,
}

impl GlyphBitmap {
    /// The bitmap holds one byte per pixel and its sides are small enough
    /// that pixel arithmetic stays far from any machine limit.
    pub open spec fn wf(self) -> bool {
        &&& self.coverage.len() == self.width * self.height
        &&& self.width <= 0xffff
        &&& self.height <= 0xffff
    }

    /// Does this glyph cover the texture pixel `(px, py)`?
    pub open spec fn covers(self, px: int, py: int) -> bool {
        &&& self.x <= px < self.x + self.width
        &&& self.y <= py < self.y + self.height
    }

    /// The coverage value this glyph gives to the texture pixel `(px, py)`.
    pub open spec fn sample(self, px: int, py: int) -> u8 {
        self.coverage[(py - self.y) * self.width + (px - self.x)]
    }
}

/// A fully transparent single-channel buffer of `n` bytes.
pub open spec fn blank(n: int) -> Seq<u8> {
    Seq::new(n as nat, |i: int| 0u8)
}

/// `base` with glyph `g` written over it, on a texture `w` pixels wide whose
/// pixel `(p, q)` lives at index `q * w + p`. Pixels of the glyph that fall
/// outside the texture have no index and are dropped.
pub open spec fn blit_spec(base: Seq<u8>, g: GlyphBitmap, w: int) -> Seq<u8> {
    Seq::new(
        base.len(),
        |i: int|
            if g.covers(i % w, i / w) {
                g.sample(i % w, i / w)
            } else {
                base[i]
            },
    )
}

/// All glyphs blitted in order onto a blank `w * h` texture; a later glyph
/// overwrites an earlier one where they overlap.
pub open spec fn compose_spec(glyphs: Seq<GlyphBitmap>, w: int, h: int) -> Seq<u8>
    decreases glyphs.len(),
{
    if glyphs.len() == 0 {
        blank(w * h)
    } else {
        blit_spec(compose_spec(glyphs.drop_last(), w, h), glyphs.last(), w)
    }
}

/// The RGBA expansion of a coverage buffer: each byte becomes four, white
/// color channels with the coverage as alpha.
pub open spec fn rgba_spec(alpha: Seq<u8>) -> Seq<u8> {
    Seq::new(
        alpha.len() * 4,
        |i: int|
            if i % 4 == 3 {
                alpha[i / 4]
            } else {
                255u8
            },
    )
}

/// An RGBA text texture ready for upload to the GPU.
pub struct TextTexture {
    pub width: u32,
    pub height: u32,
    pub rgba: Vec<u8>,
}

impl TextTexture {
    /// The buffer holds four bytes per pixel.
    pub open spec fn wf(self) -> bool {
        self.rgba.len() == 4 * self.width * self.height
    }
}

/// A composed buffer always has exactly `w * h` bytes.
pub proof fn lemma_compose_len(glyphs: Seq<GlyphBitmap>, w: int, h: int)
    requires
        0 <= w,
        0 <= h,
    ensures
        compose_spec(glyphs, w, h).len() == w * h,
    decreases glyphs.len(),
{
    assert(0 <= w * h) by (nonlinear_arith)
        requires
            0 <= w,
            0 <= h,
    ;
    if glyphs.len() > 0 {
        lemma_compose_len(glyphs.drop_last(), w, h);
    }
}

/// Composing one more glyph blits it over the composition of the others.
proof fn lemma_compose_step(glyphs: Seq<GlyphBitmap>, k: int, w: int, h: int)
    requires
        0 <= k < glyphs.len(),
    ensures
        compose_spec(glyphs.take(k + 1), w, h) == blit_spec(
            compose_spec(glyphs.take(k), w, h),
            glyphs[k],
            w,
        ),
{
    assert(glyphs.take(k + 1).drop_last() =~= glyphs.take(k));
    assert(glyphs.take(k + 1).last() == glyphs[k]);
}

/// Writes glyph `g` into `buffer`, a single-channel texture of
/// `width * height` bytes, clipping to the texture bounds.
#[verifier::loop_isolation(false)]
pub fn blit_glyph(buffer: &mut Vec<u8>, width: usize, height: usize, g: &GlyphBitmap)
    requires
        old(buffer).len() == width * height,
        1 <= width <= 0x10000,
        height <= 0x10000,
        width * height <= usize::MAX,
        g.wf(),
    ensures
        final(buffer)@ == blit_spec(old(buffer)@, *g, width as int),
{
    let ghost w = width as int;
    let mut y: usize = 0;
    while y < g.height
        invariant
            y <= g.height,
            buffer.len() == width * height,
            forall|i: int|
                0 <= i < buffer.len() ==> #[trigger] buffer@[i] == (if g.covers(i % w, i / w)
                    && i / w < g.y + y {
                    g.sample(i % w, i / w)
                } else {
                    old(buffer)@[i]
                }),
        decreases g.height - y,
    {
        let mut x: usize = 0;
        while x < g.width
            invariant
                y < g.height,
                x <= g.width,
                buffer.len() == width * height,
                forall|i: int|
                    0 <= i < buffer.len() ==> #[trigger] buffer@[i] == (if g.covers(i % w, i / w)
                        && (i / w < g.y + y || (i / w == g.y + y && i % w < g.x + x)) {
                        g.sample(i % w, i / w)
                    } else {
                        old(buffer)@[i]
                    }),
            decreases g.width - x,
        {
            let px: i64 = g.x as i64 + x as i64;
            let py: i64 = g.y as i64 + y as i64;
            if 0 <= px && px < width as i64 && 0 <= py && py < height as i64 {
                proof {
                    assert(py * w + px < width * height && py * w >= 0) by (nonlinear_arith)
                        requires
                            0 <= px < w,
                            0 <= py < height as int,
                            w == width as int,
                    ;
                    assert(y * g.width + x < g.width * g.height) by (nonlinear_arith)
                        requires
                            0 <= x < g.width,
                            0 <= y < g.height,
                    ;
                }
                let idx: usize = (py as usize) * width + (px as usize);
                let gidx: usize = y * g.width + x;
                let v: u8 = g.coverage[gidx];
                buffer.set(idx, v);
                proof {
                    lemma_fundamental_div_mod_converse(idx as int, w, py as int, px as int);
                    assert(g.covers(px as int, py as int));
                    assert((py as int - g.y) * g.width as int + (px as int - g.x) == gidx as int)
                        by (nonlinear_arith)
                        requires
                            px as int == g.x + x,
                            py as int == g.y + y,
                            gidx == y * g.width + x,
                    ;
                    assert(g.sample(px as int, py as int) == v);
                    assert forall|i: int| 0 <= i < buffer.len() implies #[trigger] buffer@[i] == (
                    if g.covers(i % w, i / w) && (i / w < g.y + y || (i / w == g.y + y && i % w < g.x
                        + x + 1)) {
                        g.sample(i % w, i / w)
                    } else {
                        old(buffer)@[i]
                    }) by {
                        if i != idx as int {
                            lemma_fundamental_div_mod(i, w);
                            lemma_mod_bound(i, w);
                            if i % w == px as int && i / w == py as int {
                                assert(i == w * (i / w) + i % w);
                                assert(i == idx as int) by (nonlinear_arith)
                                    requires
                                        i == w * (i / w) + i % w,
                                        i % w == px as int,
                                        i / w == py as int,
                                        idx as int == py as int * w + px as int,
                                ;
                            }
                        }
                    }
                }
            } else {
                proof {
                    // The pixel lies outside the texture: no buffer index
                    // corresponds to it, so nothing changes.
                    assert forall|i: int| 0 <= i < buffer.len() implies #[trigger] buffer@[i] == (
                    if g.covers(i % w, i / w) && (i / w < g.y + y || (i / w == g.y + y && i % w < g.x
                        + x + 1)) {
                        g.sample(i % w, i / w)
                    } else {
                        old(buffer)@[i]
                    }) by {
                        if i / w == g.y + y && i % w == g.x + x {
                            lemma_fundamental_div_mod(i, w);
                            lemma_mod_bound(i, w);
                            assert(0 <= i / w < height as int) by (nonlinear_arith)
                                requires
                                    0 <= i < width * height,
                                    w == width as int,
                                    1 <= w,
                                    i == w * (i / w) + i % w,
                                    0 <= i % w < w,
                            ;
                            assert(0 <= g.x + x < w && 0 <= g.y + y < height as int);
                            assert(false);
                        }
                    }
                }
            }
            x = x + 1;
        }
        y = y + 1;
    }
    proof {
        assert forall|i: int| 0 <= i < buffer.len() implies #[trigger] buffer@[i] == blit_spec(
            old(buffer)@,
            *g,
            w,
        )[i] by {
            if g.covers(i % w, i / w) {
                assert(i / w < g.y + g.height);
            }
        }
        assert(buffer@ =~= blit_spec(old(buffer)@, *g, w));
    }
}

/// Blits every glyph, in order, onto a blank single-channel texture of
/// `width * height` bytes.
#[verifier::loop_isolation(false)]
pub fn compose_glyphs(glyphs: &Vec<GlyphBitmap>, width: usize, height: usize) -> (r: Vec<u8>)
    requires
        1 <= width <= 0x10000,
        height <= 0x10000,
        width * height <= usize::MAX,
        forall|i: int| 0 <= i < glyphs.len() ==> (#[trigger] glyphs[i]).wf(),
    ensures
        r@ == compose_spec(glyphs@, width as int, height as int),
        r.len() == width * height,
{
    let total: usize = width * height;
    let mut buffer: Vec<u8> = Vec::new();
    let mut j: usize = 0;
    while j < total
        invariant
            j <= total,
            buffer.len() == j,
            forall|i: int| 0 <= i < j ==> buffer@[i] == 0u8,
        decreases total - j,
    {
        buffer.push(0u8);
        j = j + 1;
    }
    assert(buffer@ =~= blank(width * height));
    let ghost w = width as int;
    let ghost h = height as int;
    let mut k: usize = 0;
    while k < glyphs.len()
        invariant
            k <= glyphs.len(),
            buffer.len() == width * height,
            buffer@ == compose_spec(glyphs@.take(k as int), w, h),
        decreases glyphs.len() - k,
    {
        blit_glyph(&mut buffer, width, height, &glyphs[k]);
        proof {
            lemma_compose_step(glyphs@, k as int, w, h);
        }
        k = k + 1;
    }
    assert(glyphs@.take(glyphs.len() as int) =~= glyphs@);
    buffer
}

/// Expands a coverage buffer to RGBA: white color channels, coverage as alpha.
#[verifier::loop_isolation(false)]
pub fn expand_rgba(alpha: &Vec<u8>) -> (r: Vec<u8>)
    requires
        4 * alpha.len() <= usize::MAX,
    ensures
        r@ == rgba_spec(alpha@),
{
    let mut out: Vec<u8> = Vec::new();
    let mut i: usize = 0;
    while i < alpha.len()
        invariant
            i <= alpha.len(),
            out.len() == 4 * i,
            forall|t: int|
                0 <= t < 4 * i ==> #[trigger] out@[t] == (if t % 4 == 3 {
                    alpha@[t / 4]
                } else {
                    255u8
                }),
        decreases alpha.len() - i,
    {
        let a = alpha[i];
        out.push(255u8);
        out.push(255u8);
        out.push(255u8);
        out.push(a);
        proof {
            let base = 4 * i as int;
            lemma_fundamental_div_mod_converse(base, 4, i as int, 0);
            lemma_fundamental_div_mod_converse(base + 1, 4, i as int, 1);
            lemma_fundamental_div_mod_converse(base + 2, 4, i as int, 2);
            lemma_fundamental_div_mod_converse(base + 3, 4, i as int, 3);
        }
        i = i + 1;
    }
    assert(out@ =~= rgba_spec(alpha@));
    out
}

/// Builds the finished RGBA text texture from the placed, rasterized glyphs:
/// the glyphs composed in order onto a blank 512 x 256 coverage buffer, then
/// expanded to white RGBA.
pub fn texture_from_glyphs(glyphs: &Vec<GlyphBitmap>) -> (t: TextTexture)
    requires
        forall|i: int| 0 <= i < glyphs.len() ==> (#[trigger] glyphs[i]).wf(),
    ensures
        t.wf(),
        t.width == TEXTURE_WIDTH,
        t.height == TEXTURE_HEIGHT,
        t.rgba@ == rgba_spec(compose_spec(glyphs@, TEXTURE_WIDTH as int, TEXTURE_HEIGHT as int)),
{
    let coverage = compose_glyphs(glyphs, TEXTURE_WIDTH, TEXTURE_HEIGHT);
    let rgba = expand_rgba(&coverage);
    assert(rgba@.len() == coverage@.len() * 4);
    assert(coverage@.len() == TEXTURE_WIDTH * TEXTURE_HEIGHT);
    assert(rgba@.len() == 4 * (TEXTURE_WIDTH as u32) * (TEXTURE_HEIGHT as u32));
    TextTexture { width: TEXTURE_WIDTH as u32, height: TEXTURE_HEIGHT as u32, rgba }
}

} // verus!
