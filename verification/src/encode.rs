//! Encoder selection: the file extension written for a target format and the
//! encoder option string (`.jpg[Q=80,optimize_coding]` and the like) that a
//! format, preset and metadata policy select.

use vstd::prelude::*;
use crate::text::{
    decimal_string, join_strings, spec_decimal, spec_join, str_eq, views,
};

verus! {

/// The encoders the converter can write with.
#[derive(Clone, Copy, PartialEq, Eq, Debug)]
pub enum Codec {
    Jpeg,
    Png,
    Webp,
    Avif,
    Jxl,
    Tiff,
    Bmp,
    Gif,
}

/// The extension of the files written for `format`: `jpeg` is written as `jpg`, and
/// `heic` is written as WebP; any other format keeps its own name.
pub open spec fn spec_output_extension(format: Seq<char>) -> Seq<char> {
    if format == "jpeg"@ {
        "jpg"@
    } else if format == "heic"@ {
        "webp"@
    } else {
        format
    }
}

/// The encoder for `format`, or `None` when the format is not supported.
pub open spec fn spec_codec(format: Seq<char>) -> Option<Codec> {
    if format == "jpeg"@ {
        Some(Codec::Jpeg)
    } else if format == "png"@ {
        Some(Codec::Png)
    } else if format == "webp"@ || format == "heic"@ {
        Some(Codec::Webp)
    } else if format == "avif"@ {
        Some(Codec::Avif)
    } else if format == "jxl"@ {
        Some(Codec::Jxl)
    } else if format == "tiff"@ {
        Some(Codec::Tiff)
    } else if format == "bmp"@ {
        Some(Codec::Bmp)
    } else if format == "gif"@ {
        Some(Codec::Gif)
    } else {
        None
    }
}

/// The suffix that names the encoder in the output file name.
pub open spec fn spec_codec_suffix(c: Codec) -> Seq<char> {
    match c {
        Codec::Jpeg => "jpg"@,
        Codec::Png => "png"@,
        Codec::Webp => "webp"@,
        Codec::Avif => "avif"@,
        Codec::Jxl => "jxl"@,
        Codec::Tiff => "tiff"@,
        Codec::Bmp => "bmp"@,
        Codec::Gif => "gif"@,
    }
}

/// The quality (`Q=`) that a preset selects for a lossy encoder; 0 for the others.
pub open spec fn spec_quality(c: Codec, preset: Seq<char>) -> nat {
    match c {
        Codec::Jpeg => if preset == "fast"@ {
            60
        } else if preset == "standard"@ {
            80
        } else if preset == "high"@ {
            95
        } else if preset == "lossless"@ {
            100
        } else {
            80
        },
        Codec::Webp => if preset == "fast"@ {
            60
        } else if preset == "standard"@ {
            80
        } else if preset == "high"@ {
            95
        } else {
            80
        },
        Codec::Avif => if preset == "fast"@ {
            50
        } else if preset == "standard"@ {
            70
        } else if preset == "high"@ {
            90
        } else if preset == "lossless"@ {
            100
        } else {
            70
        },
        Codec::Jxl => if preset == "fast"@ {
            70
        } else if preset == "standard"@ {
            85
        } else if preset == "high"@ {
            95
        } else if preset == "lossless"@ {
            100
        } else {
            85
        },
        _ => 0,
    }
}

/// The zlib compression level that a preset selects for PNG.
pub open spec fn spec_png_compression(preset: Seq<char>) -> nat {
    if preset == "fast"@ {
        1
    } else if preset == "standard"@ {
        6
    } else if preset == "high"@ {
        9
    } else if preset == "lossless"@ {
        9
    } else {
        6
    }
}

/// The TIFF compression that a preset selects: none for `fast`, LZW otherwise.
pub open spec fn spec_tiff_compression(preset: Seq<char>) -> Seq<char> {
    if preset == "fast"@ {
        "none"@
    } else {
        "lzw"@
    }
}

/// Whether the encoder has a lossless mode that the `lossless` preset switches on.
pub open spec fn has_lossless_mode(c: Codec) -> bool {
    c == Codec::Webp || c == Codec::Avif || c == Codec::Jxl
}

/// The encoder options that the preset selects, before the metadata options.
pub open spec fn spec_codec_params(c: Codec, preset: Seq<char>) -> Seq<Seq<char>> {
    match c {
        Codec::Jpeg => seq!["Q="@ + spec_decimal(spec_quality(c, preset)), "optimize_coding"@],
        Codec::Png => seq!["compression="@ + spec_decimal(spec_png_compression(preset))],
        Codec::Tiff => seq!["compression="@ + spec_tiff_compression(preset)],
        Codec::Bmp => Seq::empty(),
        Codec::Gif => Seq::empty(),
        _ => if preset == "lossless"@ {
            seq!["lossless"@]
        } else {
            seq!["Q="@ + spec_decimal(spec_quality(c, preset))]
        },
    }
}

/// The metadata options: `strip` drops all metadata, `icc` keeps only the colour
/// profile, anything else leaves the encoder's default.
pub open spec fn spec_metadata_params(metadata: Seq<char>) -> Seq<Seq<char>> {
    if metadata == "strip"@ {
        seq!["strip"@]
    } else if metadata == "icc"@ {
        seq!["keep=icc"@]
    } else {
        Seq::empty()
    }
}

/// The encoder option string for a format, preset and metadata policy:
/// `.` suffix `[` options joined by `,` `]`, or `None` for an unsupported format.
pub open spec fn spec_save_options(format: Seq<char>, preset: Seq<char>, metadata: Seq<char>) -> Option<Seq<char>> {
    match spec_codec(format) {
        Some(c) => Some(
            "."@ + spec_codec_suffix(c) + "["@ + spec_join(
                spec_codec_params(c, preset) + spec_metadata_params(metadata),
                ","@,
            ) + "]"@,
        ),
        None => None,
    }
}

/// The extension of the files written for `format`.
pub fn output_extension(format: &str) -> (r: String)
    ensures
        r@ == spec_output_extension(format@),
{
    if str_eq(format, "jpeg") {
        String::from_str("jpg")
    } else if str_eq(format, "heic") {
        String::from_str("webp")
    } else {
        String::from_str(format)
    }
}

/// The encoder for `format`, or `None` when it is not supported.
pub fn codec_for(format: &str) -> (r: Option<Codec>)
    ensures
        r == spec_codec(format@),
{
    if str_eq(format, "jpeg") {
        Some(Codec::Jpeg)
    } else if str_eq(format, "png") {
        Some(Codec::Png)
    } else if str_eq(format, "webp") || str_eq(format, "heic") {
        Some(Codec::Webp)
    } else if str_eq(format, "avif") {
        Some(Codec::Avif)
    } else if str_eq(format, "jxl") {
        Some(Codec::Jxl)
    } else if str_eq(format, "tiff") {
        Some(Codec::Tiff)
    } else if str_eq(format, "bmp") {
        Some(Codec::Bmp)
    } else if str_eq(format, "gif") {
        Some(Codec::Gif)
    } else {
        None
    }
}

fn codec_suffix(c: Codec) -> (r: &'static str)
    ensures
        r@ == spec_codec_suffix(c),
{
    match c {
        Codec::Jpeg => "jpg",
        Codec::Png => "png",
        Codec::Webp => "webp",
        Codec::Avif => "avif",
        Codec::Jxl => "jxl",
        Codec::Tiff => "tiff",
        Codec::Bmp => "bmp",
        Codec::Gif => "gif",
    }
}

/// The quality a preset selects for a lossy encoder (0 for the others).
pub fn quality(c: Codec, preset: &str) -> (q: u64)
    ensures
        q == spec_quality(c, preset@),
{
    let fast = str_eq(preset, "fast");
    let standard = str_eq(preset, "standard");
    let high = str_eq(preset, "high");
    let lossless = str_eq(preset, "lossless");
    match c {
        Codec::Jpeg => if fast {
            60
        } else if standard {
            80
        } else if high {
            95
        } else if lossless {
            100
        } else {
            80
        },
        Codec::Webp => if fast {
            60
        } else if standard {
            80
        } else if high {
            95
        } else {
            80
        },
        Codec::Avif => if fast {
            50
        } else if standard {
            70
        } else if high {
            90
        } else if lossless {
            100
        } else {
            70
        },
        Codec::Jxl => if fast {
            70
        } else if standard {
            85
        } else if high {
            95
        } else if lossless {
            100
        } else {
            85
        },
        _ => 0,
    }
}

/// The PNG compression level a preset selects.
pub fn png_compression(preset: &str) -> (level: u64)
    ensures
        level == spec_png_compression(preset@),
{
    if str_eq(preset, "fast") {
        1
    } else if str_eq(preset, "standard") {
        6
    } else if str_eq(preset, "high") {
        9
    } else if str_eq(preset, "lossless") {
        9
    } else {
        6
    }
}

fn prefixed(prefix: &str, value: &str) -> (r: String)
    ensures
        r@ == prefix@ + value@,
{
    let mut r = String::from_str(prefix);
    r.append(value);
    r
}

/// The encoder options that the preset selects, before the metadata options.
pub fn codec_params(c: Codec, preset: &str) -> (r: Vec<String>)
    ensures
        views(r@) == spec_codec_params(c, preset@),
{
    let mut r: Vec<String> = Vec::new();
    match c {
        Codec::Jpeg => {
            let q = decimal_string(quality(c, preset));
            r.push(prefixed("Q=", q.as_str()));
            r.push(String::from_str("optimize_coding"));
        },
        Codec::Png => {
            let level = decimal_string(png_compression(preset));
            r.push(prefixed("compression=", level.as_str()));
        },
        Codec::Tiff => {
            if str_eq(preset, "fast") {
                r.push(prefixed("compression=", "none"));
            } else {
                r.push(prefixed("compression=", "lzw"));
            }
        },
        Codec::Bmp => {},
        Codec::Gif => {},
        _ => {
            if str_eq(preset, "lossless") {
                r.push(String::from_str("lossless"));
            } else {
                let q = decimal_string(quality(c, preset));
                r.push(prefixed("Q=", q.as_str()));
            }
        },
    }
    assert(views(r@) =~= spec_codec_params(c, preset@));
    r
}

/// The metadata options for a metadata policy.
pub fn metadata_params(metadata: &str) -> (r: Vec<String>)
    ensures
        views(r@) == spec_metadata_params(metadata@),
{
    let mut r: Vec<String> = Vec::new();
    if str_eq(metadata, "strip") {
        r.push(String::from_str("strip"));
    } else if str_eq(metadata, "icc") {
        r.push(String::from_str("keep=icc"));
    }
    assert(views(r@) =~= spec_metadata_params(metadata@));
    r
}

/// The encoder option string for a format, preset and metadata policy, or the
/// error `不支持的格式` ("unsupported format") when the format has no encoder.
pub fn save_options(format: &str, preset: &str, metadata: &str) -> (r: Result<String, String>)
    ensures
        match spec_save_options(format@, preset@, metadata@) {
            Some(s) => r matches Ok(o) && o@ == s,
            None => r matches Err(e) && e@ == "不支持的格式"@,
        },
{
    match codec_for(format) {
        None => Err(String::from_str("不支持的格式")),
        Some(c) => {
            let mut params = codec_params(c, preset);
            let meta = metadata_params(metadata);
            let ghost before = params@;
            let mut i: usize = 0;
            while i < meta.len()
                invariant
                    i <= meta.len(),
                    params@ == before + meta@.take(i as int),
                decreases meta.len() - i,
            {
                params.push(meta[i].clone());
                assert(meta@.take(i + 1) =~= meta@.take(i as int).push(meta@[i as int]));
                i = i + 1;
            }
            assert(meta@.take(meta.len() as int) =~= meta@);
            assert(views(params@) =~= views(before) + views(meta@));
            let joined = join_strings(&params, ",");
            let mut out = String::from_str(".");
            out.append(codec_suffix(c));
            out.append("[");
            out.append(joined.as_str());
            out.append("]");
            Ok(out)
        },
    }
}


/// The encoder that writes a file always matches the extension the file is named with:
/// whenever a format is supported, its encoder suffix is the format's output extension,
/// and the option string starts with `.`, that extension and `[`.
pub proof fn lemma_encoder_matches_extension(format: Seq<char>, preset: Seq<char>, metadata: Seq<char>)
    ensures
        spec_codec(format) matches Some(c) ==> spec_codec_suffix(c) == spec_output_extension(format),
        spec_save_options(format, preset, metadata) matches Some(o) ==> o.take(
            spec_output_extension(format).len() + 2int,
        ) == "."@ + spec_output_extension(format) + "["@,
{
    lemma_format_names_differ();
    if let Some(c) = spec_codec(format) {
        let ext = spec_output_extension(format);
        let rest = spec_join(spec_codec_params(c, preset) + spec_metadata_params(metadata), ","@) + "]"@;
        reveal_strlit(".");
        reveal_strlit("[");
        let o = "."@ + ext + "["@ + rest;
        assert(spec_save_options(format, preset, metadata) == Some(o)) by {
            assert(o =~= "."@ + spec_codec_suffix(c) + "["@ + spec_join(
                spec_codec_params(c, preset) + spec_metadata_params(metadata),
                ","@,
            ) + "]"@);
        }
        assert(o.take(ext.len() + 2int) =~= "."@ + ext + "["@);
    }
}

proof fn lemma_format_names_differ()
    ensures
        "heic"@ != "png"@,
        "heic"@ != "avif"@,
        "heic"@ != "jxl"@,
        "heic"@ != "tiff"@,
        "heic"@ != "bmp"@,
        "heic"@ != "gif"@,
{
    reveal_strlit("heic");
    reveal_strlit("png");
    reveal_strlit("avif");
    reveal_strlit("jxl");
    reveal_strlit("tiff");
    reveal_strlit("bmp");
    reveal_strlit("gif");
    assert("heic"@[0] != "png"@[0]);
    assert("heic"@[0] != "avif"@[0]);
    assert("heic"@[0] != "jxl"@[0]);
    assert("heic"@[0] != "tiff"@[0]);
    assert("heic"@[0] != "bmp"@[0]);
    assert("heic"@[0] != "gif"@[0]);
}

proof fn lemma_preset_names_differ()
    ensures
        "fast"@ != "standard"@,
        "fast"@ != "high"@,
        "fast"@ != "lossless"@,
        "standard"@ != "high"@,
        "standard"@ != "lossless"@,
        "high"@ != "lossless"@,
{
    reveal_strlit("fast");
    reveal_strlit("standard");
    reveal_strlit("high");
    reveal_strlit("lossless");
    assert("fast"@[0] != "standard"@[0]);
    assert("fast"@[0] != "high"@[0]);
    assert("fast"@[0] != "lossless"@[0]);
    assert("standard"@[0] != "high"@[0]);
    assert("standard"@[0] != "lossless"@[0]);
    assert("high"@[0] != "lossless"@[0]);
}

/// Presets are ordered: for every lossy encoder the quality never falls from `fast` to
/// `standard` to `high`, and PNG compresses harder at each step.
pub proof fn lemma_presets_ordered(c: Codec)
    ensures
        spec_quality(c, "fast"@) <= spec_quality(c, "standard"@) <= spec_quality(c, "high"@),
        spec_png_compression("fast"@) < spec_png_compression("standard"@) < spec_png_compression(
            "high"@,
        ),
{
    lemma_preset_names_differ();
}

/// No preset asks more of JPEG, AVIF, JPEG XL or PNG than `lossless` does: `lossless`
/// selects quality 100 for the lossy encoders and the strongest PNG compression.
pub proof fn lemma_lossless_is_highest(c: Codec, preset: Seq<char>)
    requires
        c == Codec::Jpeg || c == Codec::Avif || c == Codec::Jxl,
    ensures
        spec_quality(c, preset) <= spec_quality(c, "lossless"@) == 100,
        spec_png_compression(preset) <= spec_png_compression("lossless"@) == 9,
{
    lemma_preset_names_differ();
}

/// A preset name the converter does not know behaves exactly like `standard`.
pub proof fn lemma_unknown_preset_is_standard(c: Codec, preset: Seq<char>)
    requires
        preset != "fast"@,
        preset != "standard"@,
        preset != "high"@,
        preset != "lossless"@,
    ensures
        spec_quality(c, preset) == spec_quality(c, "standard"@),
        spec_png_compression(preset) == spec_png_compression("standard"@),
        spec_codec_params(c, preset) == spec_codec_params(c, "standard"@),
{
    lemma_preset_names_differ();
}


/// The format, preset and metadata names the option tables tell apart are all different.
pub(crate) proof fn lemma_option_names_differ()
    ensures
        "jpeg"@ != "png"@,
        "jpeg"@ != "webp"@,
        "jpeg"@ != "heic"@,
        "jpeg"@ != "avif"@,
        "jpeg"@ != "jxl"@,
        "jpeg"@ != "tiff"@,
        "jpeg"@ != "bmp"@,
        "jpeg"@ != "gif"@,
        "png"@ != "webp"@,
        "png"@ != "heic"@,
        "png"@ != "avif"@,
        "png"@ != "jxl"@,
        "png"@ != "tiff"@,
        "png"@ != "bmp"@,
        "png"@ != "gif"@,
        "webp"@ != "heic"@,
        "webp"@ != "avif"@,
        "webp"@ != "jxl"@,
        "webp"@ != "tiff"@,
        "webp"@ != "bmp"@,
        "webp"@ != "gif"@,
        "heic"@ != "avif"@,
        "heic"@ != "jxl"@,
        "heic"@ != "tiff"@,
        "heic"@ != "bmp"@,
        "heic"@ != "gif"@,
        "avif"@ != "jxl"@,
        "avif"@ != "tiff"@,
        "avif"@ != "bmp"@,
        "avif"@ != "gif"@,
        "jxl"@ != "tiff"@,
        "jxl"@ != "bmp"@,
        "jxl"@ != "gif"@,
        "tiff"@ != "bmp"@,
        "tiff"@ != "gif"@,
        "bmp"@ != "gif"@,
        "fast"@ != "standard"@,
        "fast"@ != "high"@,
        "fast"@ != "lossless"@,
        "standard"@ != "high"@,
        "standard"@ != "lossless"@,
        "high"@ != "lossless"@,
        "strip"@ != "icc"@,
{
    reveal_strlit("jpeg");
    reveal_strlit("png");
    reveal_strlit("webp");
    reveal_strlit("heic");
    reveal_strlit("avif");
    reveal_strlit("jxl");
    reveal_strlit("tiff");
    reveal_strlit("bmp");
    reveal_strlit("gif");
    reveal_strlit("fast");
    reveal_strlit("standard");
    reveal_strlit("high");
    reveal_strlit("lossless");
    reveal_strlit("strip");
    reveal_strlit("icc");
        assert("jpeg"@.len() != "png"@.len());
        assert("jpeg"@[0] != "webp"@[0]);
        assert("jpeg"@[0] != "heic"@[0]);
        assert("jpeg"@[0] != "avif"@[0]);
        assert("jpeg"@.len() != "jxl"@.len());
        assert("jpeg"@[0] != "tiff"@[0]);
        assert("jpeg"@.len() != "bmp"@.len());
        assert("jpeg"@.len() != "gif"@.len());
        assert("png"@.len() != "webp"@.len());
        assert("png"@.len() != "heic"@.len());
        assert("png"@.len() != "avif"@.len());
        assert("png"@[0] != "jxl"@[0]);
        assert("png"@.len() != "tiff"@.len());
        assert("png"@[0] != "bmp"@[0]);
        assert("png"@[0] != "gif"@[0]);
        assert("webp"@[0] != "heic"@[0]);
        assert("webp"@[0] != "avif"@[0]);
        assert("webp"@.len() != "jxl"@.len());
        assert("webp"@[0] != "tiff"@[0]);
        assert("webp"@.len() != "bmp"@.len());
        assert("webp"@.len() != "gif"@.len());
        assert("heic"@[0] != "avif"@[0]);
        assert("heic"@.len() != "jxl"@.len());
        assert("heic"@[0] != "tiff"@[0]);
        assert("heic"@.len() != "bmp"@.len());
        assert("heic"@.len() != "gif"@.len());
        assert("avif"@.len() != "jxl"@.len());
        assert("avif"@[0] != "tiff"@[0]);
        assert("avif"@.len() != "bmp"@.len());
        assert("avif"@.len() != "gif"@.len());
        assert("jxl"@.len() != "tiff"@.len());
        assert("jxl"@[0] != "bmp"@[0]);
        assert("jxl"@[0] != "gif"@[0]);
        assert("tiff"@.len() != "bmp"@.len());
        assert("tiff"@.len() != "gif"@.len());
        assert("bmp"@[0] != "gif"@[0]);
        assert("fast"@.len() != "standard"@.len());
        assert("fast"@[0] != "high"@[0]);
        assert("fast"@.len() != "lossless"@.len());
        assert("standard"@.len() != "high"@.len());
        assert("standard"@[0] != "lossless"@[0]);
        assert("high"@.len() != "lossless"@.len());
        assert("strip"@.len() != "icc"@.len());
}

/// JPEG output with no metadata option: the exact encoder option string for each
/// preset, `.jpg[Q=80,optimize_coding]` for every other preset, `.jpg[Q=60,optimize_coding]` for `fast`, `.jpg[Q=95,optimize_coding]` for `high`, `.jpg[Q=100,optimize_coding]` for `lossless`.
pub proof fn lemma_jpeg_options(preset: Seq<char>, metadata: Seq<char>)
    requires
        metadata != "strip"@,
        metadata != "icc"@,
    ensures
        spec_save_options("jpeg"@, preset, metadata) == Some(
            if preset == "fast"@ {
            ".jpg[Q=60,optimize_coding]"@
        } else if preset == "high"@ {
            ".jpg[Q=95,optimize_coding]"@
        } else if preset == "lossless"@ {
            ".jpg[Q=100,optimize_coding]"@
        } else {
            ".jpg[Q=80,optimize_coding]"@
        },
        ),
{
    lemma_option_names_differ();
    reveal_strlit(",");
    reveal_strlit(".");
    reveal_strlit(".jpg[Q=100,optimize_coding]");
    reveal_strlit(".jpg[Q=60,optimize_coding]");
    reveal_strlit(".jpg[Q=80,optimize_coding]");
    reveal_strlit(".jpg[Q=95,optimize_coding]");
    reveal_strlit("Q=");
    reveal_strlit("Q=100");
    reveal_strlit("Q=60");
    reveal_strlit("Q=80");
    reveal_strlit("Q=95");
    reveal_strlit("[");
    reveal_strlit("]");
    reveal_strlit("compression=");
    reveal_strlit("fast");
    reveal_strlit("high");
    reveal_strlit("icc");
    reveal_strlit("jpeg");
    reveal_strlit("jpg");
    reveal_strlit("lossless");
    reveal_strlit("lzw");
    reveal_strlit("none");
    reveal_strlit("optimize_coding");
    reveal_strlit("standard");
    reveal_strlit("strip");
    reveal_with_fuel(spec_decimal, 4);
    reveal_with_fuel(spec_join, 3);
    let c = spec_codec("jpeg"@)->0;
    assert(spec_codec("jpeg"@) is Some);
    if preset == "fast"@ {
        let params = spec_codec_params(c, preset) + spec_metadata_params(metadata);
        assert("Q="@ + spec_decimal(60) =~= "Q=60"@);
        assert(params =~= seq!["Q=60"@, "optimize_coding"@]);
        assert(params.drop_last() =~= seq![params[0]]);
        assert("."@ + "jpg"@ + "["@ + spec_join(params, ","@) + "]"@ =~= ".jpg[Q=60,optimize_coding]"@);
    } else if preset == "high"@ {
        let params = spec_codec_params(c, preset) + spec_metadata_params(metadata);
        assert("Q="@ + spec_decimal(95) =~= "Q=95"@);
        assert(params =~= seq!["Q=95"@, "optimize_coding"@]);
        assert(params.drop_last() =~= seq![params[0]]);
        assert("."@ + "jpg"@ + "["@ + spec_join(params, ","@) + "]"@ =~= ".jpg[Q=95,optimize_coding]"@);
    } else if preset == "lossless"@ {
        let params = spec_codec_params(c, preset) + spec_metadata_params(metadata);
        assert("Q="@ + spec_decimal(100) =~= "Q=100"@);
        assert(params =~= seq!["Q=100"@, "optimize_coding"@]);
        assert(params.drop_last() =~= seq![params[0]]);
        assert("."@ + "jpg"@ + "["@ + spec_join(params, ","@) + "]"@ =~= ".jpg[Q=100,optimize_coding]"@);
    } else {
        let params = spec_codec_params(c, preset) + spec_metadata_params(metadata);
        assert("Q="@ + spec_decimal(80) =~= "Q=80"@);
        assert(params =~= seq!["Q=80"@, "optimize_coding"@]);
        assert(params.drop_last() =~= seq![params[0]]);
        assert("."@ + "jpg"@ + "["@ + spec_join(params, ","@) + "]"@ =~= ".jpg[Q=80,optimize_coding]"@);
    }
}

/// PNG output with no metadata option: the exact encoder option string for each
/// preset, `.png[compression=6]` for every other preset, `.png[compression=1]` for `fast`, `.png[compression=9]` for `high`, `.png[compression=9]` for `lossless`.
pub proof fn lemma_png_options(preset: Seq<char>, metadata: Seq<char>)
    requires
        metadata != "strip"@,
        metadata != "icc"@,
    ensures
        spec_save_options("png"@, preset, metadata) == Some(
            if preset == "fast"@ {
            ".png[compression=1]"@
        } else if preset == "high"@ {
            ".png[compression=9]"@
        } else if preset == "lossless"@ {
            ".png[compression=9]"@
        } else {
            ".png[compression=6]"@
        },
        ),
{
    lemma_option_names_differ();
    reveal_strlit(",");
    reveal_strlit(".");
    reveal_strlit(".png[compression=1]");
    reveal_strlit(".png[compression=6]");
    reveal_strlit(".png[compression=9]");
    reveal_strlit("Q=");
    reveal_strlit("[");
    reveal_strlit("]");
    reveal_strlit("compression=");
    reveal_strlit("compression=1");
    reveal_strlit("compression=6");
    reveal_strlit("compression=9");
    reveal_strlit("fast");
    reveal_strlit("high");
    reveal_strlit("icc");
    reveal_strlit("lossless");
    reveal_strlit("lzw");
    reveal_strlit("none");
    reveal_strlit("optimize_coding");
    reveal_strlit("png");
    reveal_strlit("standard");
    reveal_strlit("strip");
    reveal_with_fuel(spec_decimal, 4);
    reveal_with_fuel(spec_join, 3);
    let c = spec_codec("png"@)->0;
    assert(spec_codec("png"@) is Some);
    if preset == "fast"@ {
        let params = spec_codec_params(c, preset) + spec_metadata_params(metadata);
        assert("compression="@ + spec_decimal(1) =~= "compression=1"@);
        assert(params =~= seq!["compression=1"@]);
        assert("."@ + "png"@ + "["@ + spec_join(params, ","@) + "]"@ =~= ".png[compression=1]"@);
    } else if preset == "high"@ {
        let params = spec_codec_params(c, preset) + spec_metadata_params(metadata);
        assert("compression="@ + spec_decimal(9) =~= "compression=9"@);
        assert(params =~= seq!["compression=9"@]);
        assert("."@ + "png"@ + "["@ + spec_join(params, ","@) + "]"@ =~= ".png[compression=9]"@);
    } else if preset == "lossless"@ {
        let params = spec_codec_params(c, preset) + spec_metadata_params(metadata);
        assert("compression="@ + spec_decimal(9) =~= "compression=9"@);
        assert(params =~= seq!["compression=9"@]);
        assert("."@ + "png"@ + "["@ + spec_join(params, ","@) + "]"@ =~= ".png[compression=9]"@);
    } else {
        let params = spec_codec_params(c, preset) + spec_metadata_params(metadata);
        assert("compression="@ + spec_decimal(6) =~= "compression=6"@);
        assert(params =~= seq!["compression=6"@]);
        assert("."@ + "png"@ + "["@ + spec_join(params, ","@) + "]"@ =~= ".png[compression=6]"@);
    }
}

/// WebP output with no metadata option: the exact encoder option string for each
/// preset, `.webp[Q=80]` for every other preset, `.webp[Q=60]` for `fast`, `.webp[Q=95]` for `high`, `.webp[lossless]` for `lossless`.
pub proof fn lemma_webp_options(preset: Seq<char>, metadata: Seq<char>)
    requires
        metadata != "strip"@,
        metadata != "icc"@,
    ensures
        spec_save_options("webp"@, preset, metadata) == Some(
            if preset == "fast"@ {
            ".webp[Q=60]"@
        } else if preset == "high"@ {
            ".webp[Q=95]"@
        } else if preset == "lossless"@ {
            ".webp[lossless]"@
        } else {
            ".webp[Q=80]"@
        },
        ),
{
    lemma_option_names_differ();
    reveal_strlit(",");
    reveal_strlit(".");
    reveal_strlit(".webp[Q=60]");
    reveal_strlit(".webp[Q=80]");
    reveal_strlit(".webp[Q=95]");
    reveal_strlit(".webp[lossless]");
    reveal_strlit("Q=");
    reveal_strlit("Q=60");
    reveal_strlit("Q=80");
    reveal_strlit("Q=95");
    reveal_strlit("[");
    reveal_strlit("]");
    reveal_strlit("compression=");
    reveal_strlit("fast");
    reveal_strlit("high");
    reveal_strlit("icc");
    reveal_strlit("lossless");
    reveal_strlit("lzw");
    reveal_strlit("none");
    reveal_strlit("optimize_coding");
    reveal_strlit("standard");
    reveal_strlit("strip");
    reveal_strlit("webp");
    reveal_with_fuel(spec_decimal, 4);
    reveal_with_fuel(spec_join, 3);
    let c = spec_codec("webp"@)->0;
    assert(spec_codec("webp"@) is Some);
    if preset == "fast"@ {
        let params = spec_codec_params(c, preset) + spec_metadata_params(metadata);
        assert("Q="@ + spec_decimal(60) =~= "Q=60"@);
        assert(params =~= seq!["Q=60"@]);
        assert("."@ + "webp"@ + "["@ + spec_join(params, ","@) + "]"@ =~= ".webp[Q=60]"@);
    } else if preset == "high"@ {
        let params = spec_codec_params(c, preset) + spec_metadata_params(metadata);
        assert("Q="@ + spec_decimal(95) =~= "Q=95"@);
        assert(params =~= seq!["Q=95"@]);
        assert("."@ + "webp"@ + "["@ + spec_join(params, ","@) + "]"@ =~= ".webp[Q=95]"@);
    } else if preset == "lossless"@ {
        let params = spec_codec_params(c, preset) + spec_metadata_params(metadata);
        assert(params =~= seq!["lossless"@]);
        assert("."@ + "webp"@ + "["@ + spec_join(params, ","@) + "]"@ =~= ".webp[lossless]"@);
    } else {
        let params = spec_codec_params(c, preset) + spec_metadata_params(metadata);
        assert("Q="@ + spec_decimal(80) =~= "Q=80"@);
        assert(params =~= seq!["Q=80"@]);
        assert("."@ + "webp"@ + "["@ + spec_join(params, ","@) + "]"@ =~= ".webp[Q=80]"@);
    }
}

/// HEIC (written as WebP) output with no metadata option: the exact encoder option string for each
/// preset, `.webp[Q=80]` for every other preset, `.webp[Q=60]` for `fast`, `.webp[Q=95]` for `high`, `.webp[lossless]` for `lossless`.
pub proof fn lemma_heic_options(preset: Seq<char>, metadata: Seq<char>)
    requires
        metadata != "strip"@,
        metadata != "icc"@,
    ensures
        spec_save_options("heic"@, preset, metadata) == Some(
            if preset == "fast"@ {
            ".webp[Q=60]"@
        } else if preset == "high"@ {
            ".webp[Q=95]"@
        } else if preset == "lossless"@ {
            ".webp[lossless]"@
        } else {
            ".webp[Q=80]"@
        },
        ),
{
    lemma_option_names_differ();
    reveal_strlit(",");
    reveal_strlit(".");
    reveal_strlit(".webp[Q=60]");
    reveal_strlit(".webp[Q=80]");
    reveal_strlit(".webp[Q=95]");
    reveal_strlit(".webp[lossless]");
    reveal_strlit("Q=");
    reveal_strlit("Q=60");
    reveal_strlit("Q=80");
    reveal_strlit("Q=95");
    reveal_strlit("[");
    reveal_strlit("]");
    reveal_strlit("compression=");
    reveal_strlit("fast");
    reveal_strlit("heic");
    reveal_strlit("high");
    reveal_strlit("icc");
    reveal_strlit("lossless");
    reveal_strlit("lzw");
    reveal_strlit("none");
    reveal_strlit("optimize_coding");
    reveal_strlit("standard");
    reveal_strlit("strip");
    reveal_strlit("webp");
    reveal_with_fuel(spec_decimal, 4);
    reveal_with_fuel(spec_join, 3);
    let c = spec_codec("heic"@)->0;
    assert(spec_codec("heic"@) is Some);
    if preset == "fast"@ {
        let params = spec_codec_params(c, preset) + spec_metadata_params(metadata);
        assert("Q="@ + spec_decimal(60) =~= "Q=60"@);
        assert(params =~= seq!["Q=60"@]);
        assert("."@ + "webp"@ + "["@ + spec_join(params, ","@) + "]"@ =~= ".webp[Q=60]"@);
    } else if preset == "high"@ {
        let params = spec_codec_params(c, preset) + spec_metadata_params(metadata);
        assert("Q="@ + spec_decimal(95) =~= "Q=95"@);
        assert(params =~= seq!["Q=95"@]);
        assert("."@ + "webp"@ + "["@ + spec_join(params, ","@) + "]"@ =~= ".webp[Q=95]"@);
    } else if preset == "lossless"@ {
        let params = spec_codec_params(c, preset) + spec_metadata_params(metadata);
        assert(params =~= seq!["lossless"@]);
        assert("."@ + "webp"@ + "["@ + spec_join(params, ","@) + "]"@ =~= ".webp[lossless]"@);
    } else {
        let params = spec_codec_params(c, preset) + spec_metadata_params(metadata);
        assert("Q="@ + spec_decimal(80) =~= "Q=80"@);
        assert(params =~= seq!["Q=80"@]);
        assert("."@ + "webp"@ + "["@ + spec_join(params, ","@) + "]"@ =~= ".webp[Q=80]"@);
    }
}

/// AVIF output with no metadata option: the exact encoder option string for each
/// preset, `.avif[Q=70]` for every other preset, `.avif[Q=50]` for `fast`, `.avif[Q=90]` for `high`, `.avif[lossless]` for `lossless`.
pub proof fn lemma_avif_options(preset: Seq<char>, metadata: Seq<char>)
    requires
        metadata != "strip"@,
        metadata != "icc"@,
    ensures
        spec_save_options("avif"@, preset, metadata) == Some(
            if preset == "fast"@ {
            ".avif[Q=50]"@
        } else if preset == "high"@ {
            ".avif[Q=90]"@
        } else if preset == "lossless"@ {
            ".avif[lossless]"@
        } else {
            ".avif[Q=70]"@
        },
        ),
{
    lemma_option_names_differ();
    reveal_strlit(",");
    reveal_strlit(".");
    reveal_strlit(".avif[Q=50]");
    reveal_strlit(".avif[Q=70]");
    reveal_strlit(".avif[Q=90]");
    reveal_strlit(".avif[lossless]");
    reveal_strlit("Q=");
    reveal_strlit("Q=50");
    reveal_strlit("Q=70");
    reveal_strlit("Q=90");
    reveal_strlit("[");
    reveal_strlit("]");
    reveal_strlit("avif");
    reveal_strlit("compression=");
    reveal_strlit("fast");
    reveal_strlit("high");
    reveal_strlit("icc");
    reveal_strlit("lossless");
    reveal_strlit("lzw");
    reveal_strlit("none");
    reveal_strlit("optimize_coding");
    reveal_strlit("standard");
    reveal_strlit("strip");
    reveal_with_fuel(spec_decimal, 4);
    reveal_with_fuel(spec_join, 3);
    let c = spec_codec("avif"@)->0;
    assert(spec_codec("avif"@) is Some);
    if preset == "fast"@ {
        let params = spec_codec_params(c, preset) + spec_metadata_params(metadata);
        assert("Q="@ + spec_decimal(50) =~= "Q=50"@);
        assert(params =~= seq!["Q=50"@]);
        assert("."@ + "avif"@ + "["@ + spec_join(params, ","@) + "]"@ =~= ".avif[Q=50]"@);
    } else if preset == "high"@ {
        let params = spec_codec_params(c, preset) + spec_metadata_params(metadata);
        assert("Q="@ + spec_decimal(90) =~= "Q=90"@);
        assert(params =~= seq!["Q=90"@]);
        assert("."@ + "avif"@ + "["@ + spec_join(params, ","@) + "]"@ =~= ".avif[Q=90]"@);
    } else if preset == "lossless"@ {
        let params = spec_codec_params(c, preset) + spec_metadata_params(metadata);
        assert(params =~= seq!["lossless"@]);
        assert("."@ + "avif"@ + "["@ + spec_join(params, ","@) + "]"@ =~= ".avif[lossless]"@);
    } else {
        let params = spec_codec_params(c, preset) + spec_metadata_params(metadata);
        assert("Q="@ + spec_decimal(70) =~= "Q=70"@);
        assert(params =~= seq!["Q=70"@]);
        assert("."@ + "avif"@ + "["@ + spec_join(params, ","@) + "]"@ =~= ".avif[Q=70]"@);
    }
}

/// JPEG XL output with no metadata option: the exact encoder option string for each
/// preset, `.jxl[Q=85]` for every other preset, `.jxl[Q=70]` for `fast`, `.jxl[Q=95]` for `high`, `.jxl[lossless]` for `lossless`.
pub proof fn lemma_jxl_options(preset: Seq<char>, metadata: Seq<char>)
    requires
        metadata != "strip"@,
        metadata != "icc"@,
    ensures
        spec_save_options("jxl"@, preset, metadata) == Some(
            if preset == "fast"@ {
            ".jxl[Q=70]"@
        } else if preset == "high"@ {
            ".jxl[Q=95]"@
        } else if preset == "lossless"@ {
            ".jxl[lossless]"@
        } else {
            ".jxl[Q=85]"@
        },
        ),
{
    lemma_option_names_differ();
    reveal_strlit(",");
    reveal_strlit(".");
    reveal_strlit(".jxl[Q=70]");
    reveal_strlit(".jxl[Q=85]");
    reveal_strlit(".jxl[Q=95]");
    reveal_strlit(".jxl[lossless]");
    reveal_strlit("Q=");
    reveal_strlit("Q=70");
    reveal_strlit("Q=85");
    reveal_strlit("Q=95");
    reveal_strlit("[");
    reveal_strlit("]");
    reveal_strlit("compression=");
    reveal_strlit("fast");
    reveal_strlit("high");
    reveal_strlit("icc");
    reveal_strlit("jxl");
    reveal_strlit("lossless");
    reveal_strlit("lzw");
    reveal_strlit("none");
    reveal_strlit("optimize_coding");
    reveal_strlit("standard");
    reveal_strlit("strip");
    reveal_with_fuel(spec_decimal, 4);
    reveal_with_fuel(spec_join, 3);
    let c = spec_codec("jxl"@)->0;
    assert(spec_codec("jxl"@) is Some);
    if preset == "fast"@ {
        let params = spec_codec_params(c, preset) + spec_metadata_params(metadata);
        assert("Q="@ + spec_decimal(70) =~= "Q=70"@);
        assert(params =~= seq!["Q=70"@]);
        assert("."@ + "jxl"@ + "["@ + spec_join(params, ","@) + "]"@ =~= ".jxl[Q=70]"@);
    } else if preset == "high"@ {
        let params = spec_codec_params(c, preset) + spec_metadata_params(metadata);
        assert("Q="@ + spec_decimal(95) =~= "Q=95"@);
        assert(params =~= seq!["Q=95"@]);
        assert("."@ + "jxl"@ + "["@ + spec_join(params, ","@) + "]"@ =~= ".jxl[Q=95]"@);
    } else if preset == "lossless"@ {
        let params = spec_codec_params(c, preset) + spec_metadata_params(metadata);
        assert(params =~= seq!["lossless"@]);
        assert("."@ + "jxl"@ + "["@ + spec_join(params, ","@) + "]"@ =~= ".jxl[lossless]"@);
    } else {
        let params = spec_codec_params(c, preset) + spec_metadata_params(metadata);
        assert("Q="@ + spec_decimal(85) =~= "Q=85"@);
        assert(params =~= seq!["Q=85"@]);
        assert("."@ + "jxl"@ + "["@ + spec_join(params, ","@) + "]"@ =~= ".jxl[Q=85]"@);
    }
}

/// TIFF output with no metadata option: the exact encoder option string for each
/// preset, `.tiff[compression=lzw]` for every other preset, `.tiff[compression=none]` for `fast`.
pub proof fn lemma_tiff_options(preset: Seq<char>, metadata: Seq<char>)
    requires
        metadata != "strip"@,
        metadata != "icc"@,
    ensures
        spec_save_options("tiff"@, preset, metadata) == Some(
            if preset == "fast"@ {
            ".tiff[compression=none]"@
        } else {
            ".tiff[compression=lzw]"@
        },
        ),
{
    lemma_option_names_differ();
    reveal_strlit(",");
    reveal_strlit(".");
    reveal_strlit(".tiff[compression=lzw]");
    reveal_strlit(".tiff[compression=none]");
    reveal_strlit("Q=");
    reveal_strlit("[");
    reveal_strlit("]");
    reveal_strlit("compression=");
    reveal_strlit("compression=lzw");
    reveal_strlit("compression=none");
    reveal_strlit("fast");
    reveal_strlit("high");
    reveal_strlit("icc");
    reveal_strlit("lossless");
    reveal_strlit("lzw");
    reveal_strlit("none");
    reveal_strlit("optimize_coding");
    reveal_strlit("standard");
    reveal_strlit("strip");
    reveal_strlit("tiff");
    reveal_with_fuel(spec_decimal, 4);
    reveal_with_fuel(spec_join, 3);
    let c = spec_codec("tiff"@)->0;
    assert(spec_codec("tiff"@) is Some);
    if preset == "fast"@ {
        let params = spec_codec_params(c, preset) + spec_metadata_params(metadata);
        assert("compression="@ + "none"@ =~= "compression=none"@);
        assert(params =~= seq!["compression=none"@]);
        assert("."@ + "tiff"@ + "["@ + spec_join(params, ","@) + "]"@ =~= ".tiff[compression=none]"@);
    } else {
        let params = spec_codec_params(c, preset) + spec_metadata_params(metadata);
        assert("compression="@ + "lzw"@ =~= "compression=lzw"@);
        assert(params =~= seq!["compression=lzw"@]);
        assert("."@ + "tiff"@ + "["@ + spec_join(params, ","@) + "]"@ =~= ".tiff[compression=lzw]"@);
    }
}

/// BMP output with no metadata option: the exact encoder option string for each
/// preset, `.bmp[]` for every other preset.
pub proof fn lemma_bmp_options(preset: Seq<char>, metadata: Seq<char>)
    requires
        metadata != "strip"@,
        metadata != "icc"@,
    ensures
        spec_save_options("bmp"@, preset, metadata) == Some(
            ".bmp[]"@,
        ),
{
    lemma_option_names_differ();
    reveal_strlit(",");
    reveal_strlit(".");
    reveal_strlit(".bmp[]");
    reveal_strlit("Q=");
    reveal_strlit("[");
    reveal_strlit("]");
    reveal_strlit("bmp");
    reveal_strlit("compression=");
    reveal_strlit("fast");
    reveal_strlit("high");
    reveal_strlit("icc");
    reveal_strlit("lossless");
    reveal_strlit("lzw");
    reveal_strlit("none");
    reveal_strlit("optimize_coding");
    reveal_strlit("standard");
    reveal_strlit("strip");
    reveal_with_fuel(spec_decimal, 4);
    reveal_with_fuel(spec_join, 3);
    let c = spec_codec("bmp"@)->0;
    assert(spec_codec("bmp"@) is Some);
    {
        let params = spec_codec_params(c, preset) + spec_metadata_params(metadata);
        assert(params =~= Seq::<Seq<char>>::empty());
        assert("."@ + "bmp"@ + "["@ + spec_join(params, ","@) + "]"@ =~= ".bmp[]"@);
    }
}

/// GIF output with no metadata option: the exact encoder option string for each
/// preset, `.gif[]` for every other preset.
pub proof fn lemma_gif_options(preset: Seq<char>, metadata: Seq<char>)
    requires
        metadata != "strip"@,
        metadata != "icc"@,
    ensures
        spec_save_options("gif"@, preset, metadata) == Some(
            ".gif[]"@,
        ),
{
    lemma_option_names_differ();
    reveal_strlit(",");
    reveal_strlit(".");
    reveal_strlit(".gif[]");
    reveal_strlit("Q=");
    reveal_strlit("[");
    reveal_strlit("]");
    reveal_strlit("compression=");
    reveal_strlit("fast");
    reveal_strlit("gif");
    reveal_strlit("high");
    reveal_strlit("icc");
    reveal_strlit("lossless");
    reveal_strlit("lzw");
    reveal_strlit("none");
    reveal_strlit("optimize_coding");
    reveal_strlit("standard");
    reveal_strlit("strip");
    reveal_with_fuel(spec_decimal, 4);
    reveal_with_fuel(spec_join, 3);
    let c = spec_codec("gif"@)->0;
    assert(spec_codec("gif"@) is Some);
    {
        let params = spec_codec_params(c, preset) + spec_metadata_params(metadata);
        assert(params =~= Seq::<Seq<char>>::empty());
        assert("."@ + "gif"@ + "["@ + spec_join(params, ","@) + "]"@ =~= ".gif[]"@);
    }
}


proof fn lemma_join_push(list: Seq<Seq<char>>, x: Seq<char>, sep: Seq<char>)
    ensures
        spec_join(list.push(x), sep) == if list.len() == 0 {
            x
        } else {
            spec_join(list, sep) + sep + x
        },
{
    assert(list.push(x).drop_last() =~= list);
    if list.len() == 0 {
        assert(list.push(x) =~= seq![x]);
    }
}

/// The metadata policy only adds an option at the end of the option list: `strip`
/// appends `strip` and `icc` appends `keep=icc` (after a `,` unless the format has no
/// other options, as BMP and GIF have none), and any other policy adds nothing, giving
/// the same string as the empty policy.
pub proof fn lemma_metadata_appends_last(format: Seq<char>, preset: Seq<char>, metadata: Seq<char>)
    requires
        spec_codec(format) is Some,
    ensures
        ({
            let plain = spec_save_options(format, preset, ""@)->0;
            let sep = if format == "bmp"@ || format == "gif"@ {
                ""@
            } else {
                ","@
            };
            &&& metadata == "strip"@ ==> spec_save_options(format, preset, metadata) == Some(
                plain.drop_last() + sep + "strip"@ + "]"@,
            )
            &&& metadata == "icc"@ ==> spec_save_options(format, preset, metadata) == Some(
                plain.drop_last() + sep + "keep=icc"@ + "]"@,
            )
            &&& metadata != "strip"@ && metadata != "icc"@ ==> spec_save_options(
                format,
                preset,
                metadata,
            ) == Some(plain)
        }),
{
    lemma_option_names_differ();
    reveal_strlit("");
    reveal_strlit("strip");
    reveal_strlit("icc");
    reveal_strlit("]");
    let c = spec_codec(format)->0;
    let l = spec_codec_params(c, preset);
    let head = "."@ + spec_codec_suffix(c) + "["@;
    assert(""@.len() != "strip"@.len());
    assert(""@.len() != "icc"@.len());
    assert(spec_metadata_params(""@) =~= Seq::<Seq<char>>::empty());
    assert(l + Seq::<Seq<char>>::empty() =~= l);
    let plain = head + spec_join(l, ","@) + "]"@;
    assert(spec_save_options(format, preset, ""@) == Some(plain));
    assert(plain.drop_last() =~= head + spec_join(l, ","@));
    assert(l.len() == 0 <==> (format == "bmp"@ || format == "gif"@));
    if metadata == "strip"@ {
        assert(l + seq!["strip"@] =~= l.push("strip"@));
        lemma_join_push(l, "strip"@, ","@);
        if l.len() == 0 {
            assert(spec_join(l, ","@) =~= ""@);
        }
        let sep = if format == "bmp"@ || format == "gif"@ {
            ""@
        } else {
            ","@
        };
        assert(head + spec_join(l.push("strip"@), ","@) + "]"@ =~= plain.drop_last() + sep + "strip"@ + "]"@);
    } else if metadata == "icc"@ {
        assert(l + seq!["keep=icc"@] =~= l.push("keep=icc"@));
        lemma_join_push(l, "keep=icc"@, ","@);
        if l.len() == 0 {
            assert(spec_join(l, ","@) =~= ""@);
        }
        let sep = if format == "bmp"@ || format == "gif"@ {
            ""@
        } else {
            ","@
        };
        assert(head + spec_join(l.push("keep=icc"@), ","@) + "]"@ =~= plain.drop_last() + sep + "keep=icc"@ + "]"@);
    }
}

/// Exactly nine formats have an encoder: jpeg, png, webp, heic, avif, jxl, tiff, bmp
/// and gif. Files are named with the format itself, except that jpeg is written as
/// `jpg` and heic as `webp`; an unsupported format keeps its own name (and is refused
/// by the encoder choice).
pub proof fn lemma_supported_formats(format: Seq<char>)
    ensures
        spec_codec(format) is Some <==> (format == "jpeg"@ || format == "png"@ || format == "webp"@ || format == "heic"@ || format == "avif"@ || format == "jxl"@ || format == "tiff"@ || format == "bmp"@ || format == "gif"@),
        spec_output_extension("jpeg"@) == "jpg"@,
        spec_output_extension("heic"@) == "webp"@,
        format != "jpeg"@ && format != "heic"@ ==> spec_output_extension(format) == format,
        spec_save_options(format, ""@, ""@) is Some <==> spec_codec(format) is Some,
{
    lemma_option_names_differ();
}

} // verus!
