use lumina_convert::plan::{depth_cast, needs_srgb, resize_scale, SampleDepth};

#[test]
fn fit_shrinks_longer_side() {
    assert_eq!(resize_scale("fit", 1000, 4000, 3000), Some((1000, 4000)));
    assert_eq!(resize_scale("fit", 1000, 3000, 4000), Some((1000, 4000)));
    assert_eq!(resize_scale("fit", 4000, 4000, 3000), None);
    assert_eq!(resize_scale("fit", 5000, 4000, 3000), None);
    assert_eq!(resize_scale("fit", 0, 4000, 3000), None);
}

#[test]
fn percent_scales_unless_hundred() {
    assert_eq!(resize_scale("percent", 50, 4000, 3000), Some((50, 100)));
    assert_eq!(resize_scale("percent", 250, 10, 10), Some((250, 100)));
    assert_eq!(resize_scale("percent", 100, 10, 10), None);
    assert_eq!(resize_scale("percent", 0, 10, 10), None);
}

#[test]
fn other_modes_keep_size() {
    assert_eq!(resize_scale("none", 50, 4000, 3000), None);
    assert_eq!(resize_scale("stretch", 50, 4000, 3000), None);
    assert_eq!(resize_scale("", 50, 4000, 3000), None);
}

#[test]
fn fit_scale_matches_float_formula() {
    let (n, d) = resize_scale("fit", 1280, 1920, 2560).unwrap();
    let expected = 1280f64 / (1920f64).max(2560f64);
    assert_eq!(n as f64 / d as f64, expected);
}

#[test]
fn srgb_for_jpeg_webp_avif() {
    assert!(needs_srgb("jpeg"));
    assert!(needs_srgb("webp"));
    assert!(needs_srgb("avif"));
    assert!(!needs_srgb("heic"));
    assert!(!needs_srgb("png"));
    assert!(!needs_srgb("jxl"));
}

#[test]
fn depth_casts() {
    assert_eq!(depth_cast("16bit", "png"), Some(SampleDepth::Ushort));
    assert_eq!(depth_cast("16bit", "tiff"), Some(SampleDepth::Ushort));
    assert_eq!(depth_cast("16bit", "jpeg"), None);
    assert_eq!(depth_cast("8bit", "png"), Some(SampleDepth::Uchar));
    assert_eq!(depth_cast("8bit", "jpeg"), Some(SampleDepth::Uchar));
    assert_eq!(depth_cast("auto", "png"), None);
}

