//! Image processing decisions: how far to scale, whether to map to sRGB and to which
//! sample depth to cast, given the options and the size of the decoded image.

use vstd::prelude::*;
use crate::encode::lemma_option_names_differ;
use crate::text::str_eq;

verus! {

/// The sample format an image is cast to.
#[derive(Clone, Copy, PartialEq, Eq, Debug)]
pub enum SampleDepth {
    /// 8 bits per sample.
    Uchar,
    /// 16 bits per sample.
    Ushort,
}

/// The larger of two sides.
pub open spec fn spec_longer_side(width: int, height: int) -> int {
    if width >= height {
        width
    } else {
        height
    }
}

/// The scale factor to resize by, as `numerator / denominator`, or `None` to keep the
/// size. `fit` shrinks the longer side to `value` pixels when it is longer than that;
/// `percent` scales by `value` percent unless that is 100; a `value` of 0, the mode
/// `none` and any other mode keep the size.
pub open spec fn spec_resize_scale(mode: Seq<char>, value: u32, width: i32, height: i32) -> Option<(int, int)> {
    if mode == "none"@ || value == 0 {
        None
    } else if mode == "fit"@ {
        if (value as int) < spec_longer_side(width as int, height as int) {
            Some((value as int, spec_longer_side(width as int, height as int)))
        } else {
            None
        }
    } else if mode == "percent"@ && value != 100 {
        Some((value as int, 100))
    } else {
        None
    }
}

/// Whether the image is mapped to sRGB before encoding: for JPEG, WebP and AVIF output.
pub open spec fn spec_needs_srgb(format: Seq<char>) -> bool {
    format == "jpeg"@ || format == "webp"@ || format == "avif"@
}

/// The cast before encoding: `16bit` keeps 16-bit samples for PNG and TIFF only,
/// `8bit` casts every image to 8-bit samples, anything else leaves the samples alone.
pub open spec fn spec_depth_cast(bit_depth: Seq<char>, format: Seq<char>) -> Option<SampleDepth> {
    if bit_depth == "16bit"@ {
        if format == "png"@ || format == "tiff"@ {
            Some(SampleDepth::Ushort)
        } else {
            None
        }
    } else if bit_depth == "8bit"@ {
        Some(SampleDepth::Uchar)
    } else {
        None
    }
}

/// The scale factor to resize an image of `width` x `height` by, as
/// `(numerator, denominator)`, or `None` to keep its size.
pub fn resize_scale(mode: &str, value: u32, width: i32, height: i32) -> (r: Option<(u32, u32)>)
    ensures
        match spec_resize_scale(mode@, value, width, height) {
            Some((n, d)) => r matches Some((rn, rd)) && rn == n && rd == d,
            None => r is None,
        },
{
    if str_eq(mode, "none") || value == 0 {
        return None;
    }
    if str_eq(mode, "fit") {
        let longer: i32 = if width >= height {
            width
        } else {
            height
        };
        if (value as i64) < (longer as i64) {
            Some((value, longer as u32))
        } else {
            None
        }
    } else if str_eq(mode, "percent") && value != 100 {
        Some((value, 100))
    } else {
        None
    }
}

/// Whether the image is mapped to sRGB before it is encoded as `format`.
pub fn needs_srgb(format: &str) -> (r: bool)
    ensures
        r == spec_needs_srgb(format@),
{
    str_eq(format, "jpeg") || str_eq(format, "webp") || str_eq(format, "avif")
}

/// The sample depth the image is cast to before it is encoded as `format`.
pub fn depth_cast(bit_depth: &str, format: &str) -> (r: Option<SampleDepth>)
    ensures
        r == spec_depth_cast(bit_depth@, format@),
{
    if str_eq(bit_depth, "16bit") {
        if str_eq(format, "png") || str_eq(format, "tiff") {
            Some(SampleDepth::Ushort)
        } else {
            None
        }
    } else if str_eq(bit_depth, "8bit") {
        Some(SampleDepth::Uchar)
    } else {
        None
    }
}

/// `fit` never enlarges: when it resizes, the factor is below one and scales the
/// longer side to exactly `value` pixels.
pub proof fn lemma_fit_only_shrinks(value: u32, width: i32, height: i32)
    ensures
        spec_resize_scale("fit"@, value, width, height) matches Some((n, d)) ==> 0 < n < d && d
            == spec_longer_side(width as int, height as int) && n == value,
{
}

/// A resize factor is never zero, and its denominator is positive.
pub proof fn lemma_scale_positive(mode: Seq<char>, value: u32, width: i32, height: i32)
    ensures
        spec_resize_scale(mode, value, width, height) matches Some((n, d)) ==> n > 0 && d > 0,
{
}

/// An image is mapped to sRGB before encoding exactly when the target format is JPEG,
/// WebP or AVIF; PNG, TIFF, JPEG XL, HEIC, BMP and GIF targets keep their colour space.
pub proof fn lemma_srgb_targets(format: Seq<char>)
    ensures
        spec_needs_srgb(format) <==> (format == "jpeg"@ || format == "webp"@ || format == "avif"@),
        spec_needs_srgb("jpeg"@) && spec_needs_srgb("webp"@) && spec_needs_srgb("avif"@),
        !spec_needs_srgb("png"@),
        !spec_needs_srgb("tiff"@),
        !spec_needs_srgb("jxl"@),
        !spec_needs_srgb("heic"@),
        !spec_needs_srgb("bmp"@),
        !spec_needs_srgb("gif"@),
{
    lemma_option_names_differ();
}

/// The sample depth an image is cast to: with `16bit` it is 16-bit for PNG and TIFF
/// targets and left alone for every other target; with `8bit` it is 8-bit for every
/// target; with any other setting it is left alone.
pub proof fn lemma_depth_casts(bit_depth: Seq<char>, format: Seq<char>)
    ensures
        bit_depth == "16bit"@ ==> (spec_depth_cast(bit_depth, format) == if format == "png"@
            || format == "tiff"@ {
            Some(SampleDepth::Ushort)
        } else {
            None::<SampleDepth>
        }),
        bit_depth == "8bit"@ ==> spec_depth_cast(bit_depth, format) == Some(SampleDepth::Uchar),
        bit_depth != "16bit"@ && bit_depth != "8bit"@ ==> spec_depth_cast(bit_depth, format) is None,
        spec_depth_cast("16bit"@, "jpeg"@) is None,
        spec_depth_cast("16bit"@, "webp"@) is None,
        spec_depth_cast("16bit"@, "avif"@) is None,
        spec_depth_cast("16bit"@, "jxl"@) is None,
{
    lemma_option_names_differ();
    reveal_strlit("16bit");
    reveal_strlit("8bit");
    assert("16bit"@.len() != "8bit"@.len());
}

/// How the resize mode scales, for every image size: `none`, any unknown mode and a
/// value of 0 keep the size; `fit` scales the longer side down to `value` pixels when it
/// is longer, and keeps the size otherwise; `percent` scales by `value / 100` unless the
/// value is 100.
pub proof fn lemma_resize_modes(mode: Seq<char>, value: u32, width: i32, height: i32)
    ensures
        value == 0 || mode == "none"@ ==> spec_resize_scale(mode, value, width, height) is None,
        mode != "none"@ && mode != "fit"@ && mode != "percent"@ ==> spec_resize_scale(
            mode,
            value,
            width,
            height,
        ) is None,
        mode == "fit"@ && value > 0 ==> {
            let longer = if width >= height {
                width as int
            } else {
                height as int
            };
            &&& longer >= width && longer >= height && (longer == width || longer == height)
            &&& (value < longer ==> spec_resize_scale(mode, value, width, height) == Some(
                (value as int, longer),
            ))
            &&& (value >= longer ==> spec_resize_scale(mode, value, width, height) is None)
        },
        mode == "percent"@ && value > 0 ==> spec_resize_scale(mode, value, width, height) == if value
            == 100 {
            None::<(int, int)>
        } else {
            Some((value as int, 100int))
        },
{
    reveal_strlit("none");
    reveal_strlit("fit");
    reveal_strlit("percent");
    assert("none"@.len() != "fit"@.len());
    assert("none"@.len() != "percent"@.len());
    assert("fit"@.len() != "percent"@.len());
}

} // verus!
