//! Tests for the alpha demultiply step of the bitmap encoder.

use og_image::encode::demultiply;

#[test]
fn demultiply_zero_alpha_yields_zero_channels() {
    let data = vec![10u8, 20, 30, 0];
    assert_eq!(demultiply(&data), vec![0u8, 0, 0, 0]);
}

#[test]
fn demultiply_full_alpha_is_identity() {
    let data = vec![12u8, 34, 56, 255];
    assert_eq!(demultiply(&data), vec![12u8, 34, 56, 255]);
}

#[test]
fn demultiply_divides_by_alpha_fraction() {
    // Alpha 128: each channel is divided by 128/255 and rounded half-up.
    // 128 -> 255, 64 -> 128, 32 -> 64.
    let data = vec![128u8, 64, 32, 128];
    assert_eq!(demultiply(&data), vec![255u8, 128, 64, 128]);
}

#[test]
fn demultiply_handles_several_pixels() {
    let data = vec![
        10u8, 20, 30, 0, // transparent
        12, 34, 56, 255, // opaque
        1, 2, 3, 51, // alpha fraction 1/5
    ];
    let out = demultiply(&data);
    assert_eq!(out.len(), data.len());
    assert_eq!(&out[0..4], &[0, 0, 0, 0]);
    assert_eq!(&out[4..8], &[12, 34, 56, 255]);
    assert_eq!(&out[8..12], &[5, 10, 15, 51]);
}

#[test]
fn demultiply_rounds_half_up_exactly() {
    // On every valid pre-multiplied (channel, alpha) pair the output is
    // channel * 255 / alpha rounded half-up: the exact rational convention.
    for a in 1u8..=255 {
        for c in 0u8..=a {
            let expected = (c as f64 * 255.0 / a as f64 + 0.5).floor() as u8;
            let ours = demultiply(&vec![c, c, c, a]);
            assert_eq!(ours, vec![expected, expected, expected, a], "channel {c} alpha {a}");
        }
    }
}

#[test]
fn demultiply_agrees_with_reference_demultiply() {
    // The raster engine divides by a pre-rounded alpha fraction, which can
    // land one below the exact rational at exact-half values; everywhere else
    // the two agree.
    for a in 0u8..=255 {
        for c in 0u8..=a {
            let pixel = tiny_skia::PremultipliedColorU8::from_rgba(c, c, c, a).unwrap();
            let reference = pixel.demultiply().red() as i32;
            let ours = demultiply(&vec![c, c, c, a])[0] as i32;
            assert!((ours - reference).abs() <= 1, "channel {c} alpha {a}");
            if (2 * c as u32 * 255) % (2 * a.max(1) as u32) != a as u32 {
                assert_eq!(ours, reference, "channel {c} alpha {a}");
            }
        }
    }
}

#[test]
fn demultiply_empty_buffer() {
    let data: Vec<u8> = Vec::new();
    assert!(demultiply(&data).is_empty());
}
