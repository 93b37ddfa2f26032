use lumina_convert::encode::{
    codec_for, output_extension, png_compression, quality, save_options, Codec,
};

fn opts(format: &str, preset: &str, metadata: &str) -> Result<String, String> {
    save_options(format, preset, metadata)
}

#[test]
fn output_extension_maps_jpeg_and_heic() {
    assert_eq!(output_extension("jpeg"), "jpg");
    assert_eq!(output_extension("heic"), "webp");
    assert_eq!(output_extension("png"), "png");
    assert_eq!(output_extension("avif"), "avif");
    assert_eq!(output_extension(""), "");
    assert_eq!(output_extension("JPEG"), "JPEG");
}

#[test]
fn jpeg_options_per_preset() {
    assert_eq!(opts("jpeg", "fast", "strip").unwrap(), ".jpg[Q=60,optimize_coding,strip]");
    assert_eq!(opts("jpeg", "standard", "keep").unwrap(), ".jpg[Q=80,optimize_coding]");
    assert_eq!(opts("jpeg", "high", "icc").unwrap(), ".jpg[Q=95,optimize_coding,keep=icc]");
    assert_eq!(opts("jpeg", "lossless", "").unwrap(), ".jpg[Q=100,optimize_coding]");
    assert_eq!(opts("jpeg", "whatever", "").unwrap(), ".jpg[Q=80,optimize_coding]");
}

#[test]
fn png_options_per_preset() {
    assert_eq!(opts("png", "fast", "").unwrap(), ".png[compression=1]");
    assert_eq!(opts("png", "standard", "strip").unwrap(), ".png[compression=6,strip]");
    assert_eq!(opts("png", "high", "").unwrap(), ".png[compression=9]");
    assert_eq!(opts("png", "lossless", "icc").unwrap(), ".png[compression=9,keep=icc]");
    assert_eq!(opts("png", "", "").unwrap(), ".png[compression=6]");
}

#[test]
fn webp_and_heic_options() {
    assert_eq!(opts("webp", "fast", "").unwrap(), ".webp[Q=60]");
    assert_eq!(opts("webp", "standard", "").unwrap(), ".webp[Q=80]");
    assert_eq!(opts("webp", "high", "strip").unwrap(), ".webp[Q=95,strip]");
    assert_eq!(opts("webp", "lossless", "icc").unwrap(), ".webp[lossless,keep=icc]");
    assert_eq!(opts("heic", "standard", "").unwrap(), ".webp[Q=80]");
    assert_eq!(opts("heic", "lossless", "").unwrap(), ".webp[lossless]");
    assert_eq!(opts("webp", "odd", "").unwrap(), ".webp[Q=80]");
}

#[test]
fn avif_and_jxl_options() {
    assert_eq!(opts("avif", "fast", "").unwrap(), ".avif[Q=50]");
    assert_eq!(opts("avif", "standard", "").unwrap(), ".avif[Q=70]");
    assert_eq!(opts("avif", "high", "").unwrap(), ".avif[Q=90]");
    assert_eq!(opts("avif", "lossless", "strip").unwrap(), ".avif[lossless,strip]");
    assert_eq!(opts("avif", "x", "").unwrap(), ".avif[Q=70]");
    assert_eq!(opts("jxl", "fast", "").unwrap(), ".jxl[Q=70]");
    assert_eq!(opts("jxl", "standard", "").unwrap(), ".jxl[Q=85]");
    assert_eq!(opts("jxl", "high", "icc").unwrap(), ".jxl[Q=95,keep=icc]");
    assert_eq!(opts("jxl", "lossless", "").unwrap(), ".jxl[lossless]");
    assert_eq!(opts("jxl", "x", "").unwrap(), ".jxl[Q=85]");
}

#[test]
fn tiff_bmp_gif_options() {
    assert_eq!(opts("tiff", "fast", "").unwrap(), ".tiff[compression=none]");
    assert_eq!(opts("tiff", "high", "strip").unwrap(), ".tiff[compression=lzw,strip]");
    assert_eq!(opts("tiff", "lossless", "").unwrap(), ".tiff[compression=lzw]");
    assert_eq!(opts("bmp", "high", "strip").unwrap(), ".bmp[strip]");
    assert_eq!(opts("bmp", "high", "").unwrap(), ".bmp[]");
    assert_eq!(opts("gif", "fast", "icc").unwrap(), ".gif[keep=icc]");
    assert_eq!(opts("gif", "fast", "").unwrap(), ".gif[]");
}

#[test]
fn unsupported_format_is_refused() {
    assert_eq!(opts("raw", "high", "strip"), Err("不支持的格式".to_string()));
    assert_eq!(opts("", "", ""), Err("不支持的格式".to_string()));
    assert_eq!(opts("JPEG", "high", ""), Err("不支持的格式".to_string()));
    assert_eq!(opts("jpg", "high", ""), Err("不支持的格式".to_string()));
}

#[test]
fn codec_and_tables() {
    assert_eq!(codec_for("heic"), Some(Codec::Webp));
    assert_eq!(codec_for("jpeg"), Some(Codec::Jpeg));
    assert_eq!(codec_for("tif"), None);
    assert_eq!(quality(Codec::Jpeg, "high"), 95);
    assert_eq!(quality(Codec::Avif, "lossless"), 100);
    assert_eq!(quality(Codec::Webp, "lossless"), 80);
    assert_eq!(quality(Codec::Png, "high"), 0);
    assert_eq!(png_compression("fast"), 1);
    assert_eq!(png_compression("lossless"), 9);
}

#[test]
fn encoder_matches_file_extension() {
    for format in ["jpeg", "png", "webp", "heic", "avif", "jxl", "tiff", "bmp", "gif"] {
        for preset in ["fast", "standard", "high", "lossless", "other"] {
            let o = opts(format, preset, "strip").unwrap();
            let head = format!(".{}[", output_extension(format));
            assert!(o.starts_with(&head), "{} {}", format, o);
        }
    }
}

#[test]
fn presets_are_ordered() {
    for c in [Codec::Jpeg, Codec::Webp, Codec::Avif, Codec::Jxl] {
        assert!(quality(c, "fast") <= quality(c, "standard"));
        assert!(quality(c, "standard") <= quality(c, "high"));
    }
    assert!(png_compression("fast") < png_compression("standard"));
    assert!(png_compression("standard") < png_compression("high"));
}

#[test]
fn lossless_is_highest() {
    for c in [Codec::Jpeg, Codec::Avif, Codec::Jxl] {
        for p in ["fast", "standard", "high", "lossless", "zzz"] {
            assert!(quality(c, p) <= quality(c, "lossless"));
        }
        assert_eq!(quality(c, "lossless"), 100);
    }
    for p in ["fast", "standard", "high", "lossless", "zzz"] {
        assert!(png_compression(p) <= png_compression("lossless"));
    }
}

#[test]
fn unknown_preset_is_standard() {
    for format in ["jpeg", "png", "webp", "avif", "jxl", "tiff", "bmp", "gif"] {
        assert_eq!(opts(format, "ultra", "icc"), opts(format, "standard", "icc"));
    }
}
