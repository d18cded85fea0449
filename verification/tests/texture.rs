use transparent_text::texture::{
    blit_glyph, compose_glyphs, expand_rgba, texture_from_glyphs, GlyphBitmap, TEXTURE_HEIGHT,
    TEXTURE_WIDTH,
};

#[test]
fn expand_rgba_makes_white_pixels_with_coverage_alpha() {
    let alpha = vec![0u8, 128u8, 255u8];
    let rgba = expand_rgba(&alpha);
    assert_eq!(
        rgba,
        vec![255, 255, 255, 0, 255, 255, 255, 128, 255, 255, 255, 255]
    );
}

#[test]
fn expand_rgba_of_empty_buffer_is_empty() {
    let alpha: Vec<u8> = Vec::new();
    let rgba = expand_rgba(&alpha);
    assert!(rgba.is_empty());
}

#[test]
fn blit_writes_glyph_at_its_position() {
    // A 4 x 3 texture with a 2 x 2 glyph whose corner sits at (1, 1).
    let mut buffer = vec![0u8; 12];
    let glyph = GlyphBitmap {
        x: 1,
        y: 1,
        width: 2,
        height: 2,
        coverage: vec![10, 20, 30, 40],
    };
    blit_glyph(&mut buffer, 4, 3, &glyph);
    assert_eq!(buffer, vec![0, 0, 0, 0, 0, 10, 20, 0, 0, 30, 40, 0]);
}

#[test]
fn blit_clips_at_the_top_left_corner() {
    // Only the bottom-right pixel of the glyph lands on the texture, at (0, 0).
    let mut buffer = vec![0u8; 12];
    let glyph = GlyphBitmap {
        x: -1,
        y: -1,
        width: 2,
        height: 2,
        coverage: vec![1, 2, 3, 4],
    };
    blit_glyph(&mut buffer, 4, 3, &glyph);
    assert_eq!(buffer, vec![4, 0, 0, 0, 0, 0, 0, 0, 0, 0, 0, 0]);
}

#[test]
fn blit_clips_at_the_bottom_right_corner() {
    // Only the top-left pixel of the glyph lands on the texture, at (3, 2).
    let mut buffer = vec![0u8; 12];
    let glyph = GlyphBitmap {
        x: 3,
        y: 2,
        width: 2,
        height: 2,
        coverage: vec![9, 8, 7, 6],
    };
    blit_glyph(&mut buffer, 4, 3, &glyph);
    assert_eq!(buffer, vec![0, 0, 0, 0, 0, 0, 0, 0, 0, 0, 0, 9]);
}

#[test]
fn blit_entirely_outside_changes_nothing() {
    let mut buffer = vec![5u8; 12];
    let glyph = GlyphBitmap {
        x: 100,
        y: 100,
        width: 2,
        height: 2,
        coverage: vec![1, 2, 3, 4],
    };
    blit_glyph(&mut buffer, 4, 3, &glyph);
    assert_eq!(buffer, vec![5u8; 12]);
}

#[test]
fn compose_starts_blank_and_later_glyph_wins() {
    let first = GlyphBitmap {
        x: 0,
        y: 0,
        width: 2,
        height: 1,
        coverage: vec![11, 22],
    };
    let second = GlyphBitmap {
        x: 1,
        y: 0,
        width: 2,
        height: 1,
        coverage: vec![33, 44],
    };
    let glyphs = vec![first, second];
    let buffer = compose_glyphs(&glyphs, 4, 2);
    // The second glyph overwrites the first at (1, 0).
    assert_eq!(buffer, vec![11, 33, 44, 0, 0, 0, 0, 0]);
}

#[test]
fn compose_of_no_glyphs_is_transparent() {
    let glyphs: Vec<GlyphBitmap> = Vec::new();
    let buffer = compose_glyphs(&glyphs, 4, 2);
    assert_eq!(buffer, vec![0u8; 8]);
}

#[test]
fn texture_from_glyphs_has_white_color_and_coverage_alpha() {
    let glyph = GlyphBitmap {
        x: 0,
        y: 0,
        width: 1,
        height: 1,
        coverage: vec![200],
    };
    let glyphs = vec![glyph];
    let texture = texture_from_glyphs(&glyphs);
    assert_eq!(texture.width as usize, TEXTURE_WIDTH);
    assert_eq!(texture.height as usize, TEXTURE_HEIGHT);
    assert_eq!(texture.rgba.len(), 4 * TEXTURE_WIDTH * TEXTURE_HEIGHT);
    // The covered pixel: white with the glyph's coverage as alpha.
    assert_eq!(&texture.rgba[0..4], &[255, 255, 255, 200]);
    // A pixel no glyph covers: white and fully transparent.
    assert_eq!(&texture.rgba[4..8], &[255, 255, 255, 0]);
    let last = texture.rgba.len() - 4;
    assert_eq!(&texture.rgba[last..], &[255, 255, 255, 0]);
}
