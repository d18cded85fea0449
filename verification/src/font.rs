//! Text rasterization through the fontdue library.
//!
//! fontdue parses the font, lays the text out and rasterizes each glyph; that
//! work is reached through the trusted items below. Everything after it — the
//! size guard on each bitmap, the composition onto the texture and the RGBA
//! expansion — is verified code in [`crate::texture`].

use vstd::prelude::*;

use crate::namecheck::{check_font_name, font_name_safe};
use crate::texture::{texture_from_glyphs, GlyphBitmap, TextTexture, TEXTURE_HEIGHT, TEXTURE_WIDTH};

verus! {

/// Rightmost layout boundary in pixels: text wraps to the next line there.
pub const LAYOUT_MAX_WIDTH: u16 = 800;

/// Bottom layout boundary in pixels.
pub const LAYOUT_MAX_HEIGHT: u16 = 600;

#[verifier::external_type_specification]
#[verifier::external_body]
pub struct ExFont(fontdue::Font);

#[verifier::external_type_specification]
#[verifier::external_body]
pub struct ExGlyphRasterConfig(fontdue::layout::GlyphRasterConfig);

#[verifier::external_type_specification]
#[verifier::external_body]
#[verifier::reject_recursive_types(U)]
pub struct ExLayout<U: Copy + Clone>(fontdue::layout::Layout<U>);

/// A glyph placed by the layout engine: its whole-pixel position on the
/// texture (top-left corner, y growing downward) and the key under which the
/// font rasterizes it.
pub struct PlacedGlyph {
    pub x: i32,
    pub y: i32,
    pub key: fontdue::layout::GlyphRasterConfig,
}

/// Whether fontdue parses the bytes as a font under the default settings.
/// fontdue::Font::from_bytes decides this from the data alone.
pub uninterp spec fn parses_as_font(data: Seq<u8>) -> bool;

/// Relies on fontdue::Font::from_bytes: parses TrueType/OpenType font data
/// with the default settings, succeeding or failing on the data alone; Err
/// with a message on malformed data. The parser decodes the font's full name
/// with unchecked indexing, so callers keep out data whose name table it
/// would overrun (see [`crate::namecheck`]); the parse is total on the rest.
#[verifier::external_body]
fn font_from_bytes(data: &[u8]) -> (r: Result<fontdue::Font, String>)
    requires
        font_name_safe(data@),
    ensures
        r is Ok <==> parses_as_font(data@),
{
    match fontdue::Font::from_bytes(data, fontdue::FontSettings::default()) {
        Ok(font) => Ok(font),
        Err(message) => Err(String::from(message)),
    }
}

/// Relies on fontdue::layout::Layout::new: an empty layout whose y coordinate
/// grows downward, as the texture's does.
#[verifier::external_body]
fn new_layout() -> fontdue::layout::Layout<()> {
    fontdue::layout::Layout::new(fontdue::layout::CoordinateSystem::PositiveYDown)
}

/// Relies on fontdue::layout::Layout::reset: clears the layout and applies
/// the given wrap bounds in pixels.
#[verifier::external_body]
fn reset_layout(layout: &mut fontdue::layout::Layout<()>, max_width: u16, max_height: u16) {
    layout.reset(
        &fontdue::layout::LayoutSettings {
            max_width: Some(max_width.into()),
            max_height: Some(max_height.into()),
            ..fontdue::layout::LayoutSettings::default()
        },
    );
}

/// Relies on fontdue::layout::Layout::append: lays the text out at the given
/// pixel size, adding one positioned glyph per rendered character.
#[verifier::external_body]
fn append_text(
    layout: &mut fontdue::layout::Layout<()>,
    font: &fontdue::Font,
    text: &str,
    px: u16,
) {
    layout.append(&[font], &fontdue::layout::TextStyle::new(text, px.into(), 0));
}

/// Relies on fontdue::layout::Layout::glyphs: the glyphs laid out so far, in
/// layout order, each with its whole-pixel position and its raster key.
#[verifier::external_body]
fn placed_glyphs(layout: &fontdue::layout::Layout<()>) -> (r: Vec<PlacedGlyph>) {
    layout.glyphs().iter().map(
        |g: &fontdue::layout::GlyphPosition| {
            PlacedGlyph { x: g.x as i32, y: g.y as i32, key: g.key }
        },
    ).collect()
}

/// Relies on fontdue::Font::rasterize_config: the coverage bitmap for the
/// glyph, row-major from the top-left corner, one byte per pixel, exactly
/// width * height bytes long. None for a key the font cannot safely
/// rasterize, so that the call is total: a glyph index at or past the font's
/// glyph count (the indexing inside the call would panic there), a pixel
/// size that is not a positive number below 65536 (with the parser's floor
/// of 16 font units per em, this keeps the raster's size arithmetic in
/// range), and, as a final check, a bitmap whose length does not match its
/// metrics.
#[verifier::external_body]
fn rasterize_glyph(font: &fontdue::Font, key: &fontdue::layout::GlyphRasterConfig) -> (r: Option<
    (usize, usize, Vec<u8>),
>)
    ensures
        r matches Some(g) ==> g.2.len() == g.0 * g.1,
{
    // 0x47800000 is the bit pattern of 65536 as a 32-bit float; negative
    // sizes and NaN have higher bit patterns and are excluded with it.
    if key.glyph_index >= font.glyph_count() || key.px.to_bits() >= 0x47800000 {
        return None;
    }
    let (metrics, bitmap) = font.rasterize_config(*key);
    if metrics.width.checked_mul(metrics.height) != Some(bitmap.len()) {
        return None;
    }
    Some((metrics.width, metrics.height, bitmap))
}

/// Does `m` pick out, in strictly increasing order, the placed glyphs whose
/// positions the bitmaps carry: bitmap `k` stands at the position of placed
/// glyph `m[k]`?
pub open spec fn selects_positions(
    m: Seq<int>,
    r: Seq<GlyphBitmap>,
    placed: Seq<PlacedGlyph>,
) -> bool {
    &&& m.len() == r.len()
    &&& (forall|k: int| 0 <= k < m.len() ==> 0 <= #[trigger] m[k] < placed.len())
    &&& (forall|k: int| 0 < k < m.len() ==> m[k - 1] < #[trigger] m[k])
    &&& (forall|k: int|
        0 <= k < m.len() ==> (#[trigger] r[k]).x == placed[m[k]].x && r[k].y == placed[m[k]].y)
}

/// The bitmaps carry the positions of an in-order selection of the placed
/// glyphs: none is reordered, repositioned or made up.
pub open spec fn positions_from(r: Seq<GlyphBitmap>, placed: Seq<PlacedGlyph>) -> bool {
    exists|m: Seq<int>| #[trigger] selects_positions(m, r, placed)
}

/// Rasterizes the placed glyphs, in order, into well-formed [`GlyphBitmap`]s
/// at the placed positions. A glyph is dropped only when the font cannot
/// safely rasterize its key or when its bitmap is wider or taller than 65535
/// pixels — no glyph of a real font comes near that, and leaving it out
/// keeps every kept bitmap within the bounds the blit is specified for.
pub fn rasterize_placed(font: &fontdue::Font, placed: &Vec<PlacedGlyph>) -> (r: Vec<GlyphBitmap>)
    ensures
        forall|i: int| 0 <= i < r.len() ==> (#[trigger] r[i]).wf(),
        r.len() <= placed.len(),
        positions_from(r@, placed@),
{
    let mut out: Vec<GlyphBitmap> = Vec::new();
    let ghost mut m: Seq<int> = Seq::empty();
    let mut i: usize = 0;
    while i < placed.len()
        invariant
            i <= placed.len(),
            out.len() <= i,
            m.len() == out.len(),
            forall|j: int| 0 <= j < out.len() ==> (#[trigger] out[j]).wf(),
            forall|k: int| 0 <= k < m.len() ==> 0 <= #[trigger] m[k] < i,
            forall|k: int| 0 < k < m.len() ==> m[k - 1] < #[trigger] m[k],
            forall|k: int|
                0 <= k < m.len() ==> (#[trigger] out[k]).x == placed[m[k]].x && out[k].y
                    == placed[m[k]].y,
        decreases placed.len() - i,
    {
        let p = &placed[i];
        match rasterize_glyph(font, &p.key) {
            Some((width, height, coverage)) => {
                if width <= 0xffff && height <= 0xffff {
                    out.push(GlyphBitmap { x: p.x, y: p.y, width, height, coverage });
                    proof {
                        m = m.push(i as int);
                    }
                }
            },
            None => {},
        }
        i = i + 1;
    }
    proof {
        assert(selects_positions(m, out@, placed@));
    }
    out
}

/// Renders `text` at `px` pixels into a white RGBA texture of
/// `TEXTURE_WIDTH` by `TEXTURE_HEIGHT` pixels: fontdue places and rasterizes
/// the glyphs, and the verified composition blits them in order, clipped to
/// the texture, with the coverage as alpha.
pub fn create_text_texture(font: &fontdue::Font, text: &str, px: u16) -> (t: TextTexture)
    ensures
        t.wf(),
        t.width == TEXTURE_WIDTH,
        t.height == TEXTURE_HEIGHT,
        forall|i: int| 0 <= i < t.rgba.len() && i % 4 != 3 ==> #[trigger] t.rgba[i] == 255u8,
{
    let mut layout = new_layout();
    reset_layout(&mut layout, LAYOUT_MAX_WIDTH, LAYOUT_MAX_HEIGHT);
    append_text(&mut layout, font, text, px);
    let placed = placed_glyphs(&layout);
    let glyphs = rasterize_placed(font, &placed);
    texture_from_glyphs(&glyphs)
}

/// Parses the font data and renders `text` at `px` pixels into a white RGBA
/// texture, as [`create_text_texture`] does. Err exactly when the data is
/// rejected: with fontdue's message when it does not parse as a font, and
/// before the parse when its name table would make the parser read out of
/// bounds (see [`crate::namecheck`]).
pub fn text_texture_from_font_data(font_data: &[u8], text: &str, px: u16) -> (r: Result<
    TextTexture,
    String,
>)
    ensures
        r is Ok <==> font_name_safe(font_data@) && parses_as_font(font_data@),
        r matches Ok(t) ==> {
            &&& t.wf()
            &&& t.width == TEXTURE_WIDTH
            &&& t.height == TEXTURE_HEIGHT
            &&& forall|i: int| 0 <= i < t.rgba.len() && i % 4 != 3 ==> #[trigger] t.rgba[i] == 255u8
        },
{
    if !check_font_name(font_data) {
        return Err(String::from_str("Name table contains a malformed name record."));
    }
    match font_from_bytes(font_data) {
        Ok(font) => Ok(create_text_texture(&font, text, px)),
        Err(message) => Err(message),
    }
}

} // verus!
