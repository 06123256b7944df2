use texview::color::{COLOR_DEN, COLOR_SCALE};
use texview::texture::{Texture, TextureError};

/// A 4x4 RGBA texture whose texel `i = x + y*4` holds the bytes
/// `(4i, 4i+1, 4i+2, 4i+3)`.
fn rgba_4x4() -> Texture {
    let mut data: Vec<u8> = Vec::new();
    for i in 0..16u8 {
        data.push(4 * i);
        data.push(4 * i + 1);
        data.push(4 * i + 2);
        data.push(4 * i + 3);
    }
    Texture::new(data, 4, 4, 4).unwrap()
}

/// A 4x4 RGB texture whose texel `i` holds the bytes `(3i, 3i+1, 3i+2)`.
fn rgb_4x4() -> Texture {
    let mut data: Vec<u8> = Vec::new();
    for i in 0..16u8 {
        data.push(3 * i);
        data.push(3 * i + 1);
        data.push(3 * i + 2);
    }
    Texture::new(data, 4, 4, 3).unwrap()
}

fn texel_value(byte: u8) -> u64 {
    COLOR_SCALE * byte as u64
}

#[test]
fn construction_validates() {
    assert_eq!(Texture::new(Vec::new(), 0, 0, 4).unwrap_err(), TextureError::Decode);
    assert_eq!(Texture::new(vec![0u8; 10], 2, 2, 4).unwrap_err(), TextureError::Decode);
    assert_eq!(Texture::new(vec![0u8; 16], 0, 4, 4).unwrap_err(), TextureError::Decode);
    let t = Texture::new(vec![0u8; 2 * 2 * 4], 2, 2, 4).unwrap();
    assert_eq!(t.width(), 2);
    assert_eq!(t.height(), 2);
    assert_eq!(t.channel_count(), 4);
}

#[test]
fn unsupported_channel_count_fails_at_sampling() {
    // Five channels is a valid buffer shape but an unknown byte layout.
    let t = Texture::new(vec![0u8; 2 * 2 * 5], 2, 2, 5).unwrap();
    assert_eq!(t.get_pixel(0, 0).unwrap_err(), TextureError::UnsupportedFormat);
    assert_eq!(t.sample_pixel(0, 0).unwrap_err(), TextureError::UnsupportedFormat);
}

#[test]
fn get_pixel_reads_exact_texels() {
    let t = rgba_4x4();
    // u = 0.25 -> texel column 1; v = 0 -> row 0; texel i = 1.
    let c = t.get_pixel(16384, 0).unwrap();
    assert_eq!(c.r, texel_value(4));
    assert_eq!(c.g, texel_value(5));
    assert_eq!(c.b, texel_value(6));
    assert_eq!(c.a, texel_value(7));
    // u = 0.5 -> column 2; v = 0.25 -> row 1; texel i = 2 + 4 = 6.
    let c = t.get_pixel(32768, 16384).unwrap();
    assert_eq!(c.r, texel_value(24));
    assert_eq!(c.a, texel_value(27));
}

#[test]
fn get_pixel_wraps_by_dimension_minus_one() {
    let t = rgba_4x4();
    let at_zero = t.get_pixel(0, 0).unwrap();
    // u just below 1.0 scales to column 3, and 3 mod (4 - 1) wraps to
    // column 0: the last column is never addressed directly.
    let near_one = t.get_pixel(65535, 0).unwrap();
    assert_eq!(near_one, at_zero);
    // u = 0.75 hits the same wrap exactly.
    let c = t.get_pixel(49152, 49152).unwrap();
    assert_eq!(c, t.get_pixel(0, 0).unwrap());
    // A negative coordinate clamps to column 0 before wrapping.
    let c = t.get_pixel(-5000, 0).unwrap();
    assert_eq!(c, at_zero);
}

#[test]
fn rgb_textures_sample_alpha_zero() {
    let t = rgb_4x4();
    for (u, v) in [(0i64, 0i64), (16384, 32768), (65535, 65535)] {
        let c = t.get_pixel(u, v).unwrap();
        assert_eq!(c.a, 0);
    }
    let c = t.sample_pixel(20000, 40000).unwrap();
    assert_eq!(c.a, 0);
    // The color channels are still the texel's own bytes.
    let c = t.get_pixel(16384, 0).unwrap();
    assert_eq!(c.r, texel_value(3));
    assert_eq!(c.g, texel_value(4));
    assert_eq!(c.b, texel_value(5));
}

#[test]
fn normalization_divides_by_255_99() {
    let t = Texture::new(vec![255u8; 2 * 2 * 4], 2, 2, 4).unwrap();
    let c = t.get_pixel(0, 0).unwrap();
    // A full byte normalizes to 255/255.99, just below one.
    assert_eq!(c.r, 255 * COLOR_SCALE);
    assert!(c.r < COLOR_DEN);
    let value = c.r as f64 / COLOR_DEN as f64;
    assert!((value - 255.0 / 255.99).abs() < 1e-12);
    assert!((value - 0.996132).abs() < 1e-6);
}

#[test]
fn sample_pixel_blends_the_four_taps() {
    // 5x5 RGBA, red channel 255 at texels (3,1) and (1,3), zero elsewhere.
    let mut data = vec![0u8; 5 * 5 * 4];
    data[(3 + 1 * 5) * 4] = 255;
    data[(1 + 3 * 5) * 4] = 255;
    let t = Texture::new(data, 5, 5, 4).unwrap();
    // u = v = 0.5 scales to 2.5 on both axes: taps at columns/rows 1 and 3,
    // each weight exactly one half.
    let c = t.sample_pixel(32768, 32768).unwrap();
    // 100 * (32768 * (32768*0 + 32768*255) + 32768 * (32768*255 + 32768*0))
    assert_eq!(c.r, 54_760_833_024_000);
    assert_eq!(c.g, 0);
    assert_eq!(c.b, 0);
    assert_eq!(c.a, 0);
    // The blend of half red and half black sits midway: 127.5/255.99.
    let value = c.r as f64 / COLOR_DEN as f64;
    assert!((value - 127.5 / 255.99).abs() < 1e-12);
    // Convex hull of the taps on each channel.
    assert!(c.r <= 255 * COLOR_SCALE);
}

#[test]
fn sample_pixel_with_zero_fraction_is_a_tap() {
    let t = rgba_4x4();
    // u = v = 0.25 scales to exactly 1: fractions are zero, so the blend
    // collapses onto the low tap, texel (0, 0).
    let c = t.sample_pixel(16384, 16384).unwrap();
    let p = t.get_pixel(0, 0).unwrap();
    assert_eq!(c, p);
}

#[test]
fn near_texel_center_sample_is_dominated_by_that_texel() {
    // 2x2 RGBA: red, green, blue, yellow, row-major.
    let data = vec![
        255u8, 0, 0, 255, 0, 255, 0, 255, 0, 0, 255, 255, 255, 255, 0, 255,
    ];
    let t = Texture::new(data, 2, 2, 4).unwrap();
    // (0.25, 0.25): on a 2x2 texture every tap wraps to texel (0, 0), so
    // the result is exactly that texel: pure red.
    let c = t.sample_pixel(16384, 16384).unwrap();
    assert_eq!(c.r, 255 * COLOR_SCALE);
    assert_eq!(c.g, 0);
    assert_eq!(c.b, 0);
    assert_eq!(c.a, 255 * COLOR_SCALE);
    assert!(c.r as f64 / COLOR_DEN as f64 > 0.99);
}
