use cce_fx::backdrop::{measure_pixels, unknown_sample, BackdropSample, SRGB_TO_LINEAR};

fn solid(luma_byte: u8, n: usize) -> Vec<u8> {
    std::iter::repeat([luma_byte, luma_byte, luma_byte, 255]).take(n).flatten().collect()
}

#[test]
fn a_flat_patch_of_pixels_has_no_spread() {
    let s = measure_pixels(&solid(0, 1000)).unwrap();
    assert_eq!(s.luma, 0);
    assert_eq!(s.spread, 0);
    let s = measure_pixels(&solid(255, 1000)).unwrap();
    assert_eq!(s.luma, 100);
    assert_eq!(s.spread, 0);
}

#[test]
fn half_black_half_white_pixels_report_full_spread() {
    let mut px = solid(0, 500);
    px.extend(solid(255, 500));
    let s = measure_pixels(&px).unwrap();
    assert!(s.spread > 95, "spread was {}", s.spread);
    assert!((45..=55).contains(&s.luma), "luma was {}", s.luma);
}

#[test]
fn a_lone_highlight_does_not_read_as_a_busy_backdrop() {
    let mut px = solid(0, 990);
    px.extend(solid(255, 10));
    let s = measure_pixels(&px).unwrap();
    assert_eq!(s.spread, 0, "spread was {}", s.spread);
}

#[test]
fn measure_pixels_rejects_an_empty_read() {
    assert!(measure_pixels(&[]).is_none());
}

#[test]
fn fewer_than_four_bytes_is_no_pixel() {
    assert!(measure_pixels(&[255, 255, 255]).is_none());
}

#[test]
fn a_trailing_partial_pixel_is_ignored() {
    let mut px = solid(255, 4);
    px.extend([0u8, 0, 0]);
    let s = measure_pixels(&px).unwrap();
    assert_eq!(s, BackdropSample { luma: 100, spread: 0 });
}

#[test]
fn luminance_is_perceptual_not_a_channel_mean() {
    // pure green against pure blue: same channel mean, very different luma
    let green = measure_pixels(&[0, 255, 0, 255]).unwrap();
    let blue = measure_pixels(&[0, 0, 255, 255]).unwrap();
    assert_eq!(green.luma, 72);
    assert_eq!(blue.luma, 7);
    assert!(green.luma > blue.luma * 5);
}

#[test]
fn mid_gray_is_about_a_fifth_bright() {
    // sRGB 128 is 21.6% linear light
    let s = measure_pixels(&solid(128, 10)).unwrap();
    assert_eq!(s.luma, 22);
    assert_eq!(s.spread, 0);
}

#[test]
fn percentiles_ignore_the_top_and_bottom_tenth() {
    // 10 pixels: sorted index 1 and 8 are the percentiles
    let mut px = solid(0, 1);
    px.extend(solid(255, 9));
    let s = measure_pixels(&px).unwrap();
    assert_eq!(s.spread, 0);
    assert_eq!(s.luma, 90);
    let mut px = solid(0, 2);
    px.extend(solid(255, 8));
    let s = measure_pixels(&px).unwrap();
    assert_eq!(s.spread, 100);
    assert_eq!(s.luma, 80);
}

#[test]
fn the_linear_table_ends_at_full_scale() {
    assert_eq!(SRGB_TO_LINEAR[0], 0);
    assert_eq!(SRGB_TO_LINEAR[255], 100000);
    for i in 1..256 {
        assert!(SRGB_TO_LINEAR[i] > SRGB_TO_LINEAR[i - 1]);
    }
}

#[test]
fn an_unknown_backdrop_is_mid_luma_full_spread() {
    assert_eq!(unknown_sample(), BackdropSample { luma: 50, spread: 100 });
}

#[test]
fn luma_is_rounded_from_the_exact_fixed_point_value() {
    // 7152 * 243 + 722 * 4519 = 5000654 parts in 10^9: just over half a
    // percent, so 1% (an f32 computation of the same formula lands under).
    assert_eq!(measure_pixels(&[0, 8, 60, 255]).unwrap().luma, 1);
}
