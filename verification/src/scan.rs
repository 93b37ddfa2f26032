//! Folder scanning: which directory entries are taken as images, and the cap on how
//! many a scan collects.

use vstd::prelude::*;
use crate::text::{lowercase, lowercase_of, str_eq};

verus! {

/// The most images one scan collects.
pub const SCAN_LIMIT: usize = 5000;

/// The (lowercase) file extensions that are taken as images.
pub open spec fn spec_image_extensions() -> Seq<Seq<char>> {
    seq![
        "jpg"@, "jpeg"@, "png"@, "heic"@, "heif"@, "hif"@, "webp"@, "avif"@, "jxl"@, "tiff"@,
        "tif"@, "bmp"@, "gif"@, "svg"@, "pdf"@,
    ]
}

/// Whether a file with extension `ext` (in any case) is taken as an image.
pub open spec fn spec_is_image_extension(ext: Seq<char>) -> bool {
    spec_image_extensions().contains(lowercase_of(ext))
}

/// The images collected after offering one more directory entry: nothing changes once
/// the limit is reached; otherwise a file with an image extension is appended.
pub open spec fn spec_offer(images: Seq<Seq<char>>, is_file: bool, ext: Option<Seq<char>>, path: Seq<char>) -> Seq<Seq<char>> {
    if images.len() >= SCAN_LIMIT {
        images
    } else if is_file && ext is Some && spec_is_image_extension(ext->0) {
        images.push(path)
    } else {
        images
    }
}

fn image_extensions() -> (r: Vec<&'static str>)
    ensures
        r@.map_values(|s: &str| s@) == spec_image_extensions(),
{
    let r = vec![
        "jpg", "jpeg", "png", "heic", "heif", "hif", "webp", "avif", "jxl", "tiff", "tif", "bmp",
        "gif", "svg", "pdf",
    ];
    assert(r@.map_values(|s: &str| s@) =~= spec_image_extensions());
    r
}

/// Whether a file with extension `ext` is taken as an image (compared in lowercase).
pub fn is_image_extension(ext: &str) -> (r: bool)
    ensures
        r == spec_is_image_extension(ext@),
{
    let lower = lowercase(ext);
    let known = image_extensions();
    let ghost all = known@.map_values(|s: &str| s@);
    let mut i: usize = 0;
    while i < known.len()
        invariant
            i <= known.len(),
            all == known@.map_values(|s: &str| s@),
            all == spec_image_extensions(),
            lower@ == lowercase_of(ext@),
            forall|j: int| 0 <= j < i ==> all[j] != lower@,
        decreases known.len() - i,
    {
        if str_eq(lower.as_str(), known[i]) {
            assert(all[i as int] == lower@);
            return true;
        }
        i = i + 1;
    }
    false
}

/// The views of the collected image paths.
pub open spec fn path_views(images: Seq<String>) -> Seq<Seq<char>> {
    images.map_values(|s: String| s@)
}

/// Offers one directory entry to a scan that has collected `images`. Returns `false`
/// when the limit was already reached, so that the walk stops, and `true` otherwise.
pub fn offer_entry(images: &mut Vec<String>, is_file: bool, ext: Option<&str>, path: String) -> (go_on: bool)
    ensures
        go_on == (old(images).len() < SCAN_LIMIT),
        path_views(final(images)@) == spec_offer(
            path_views(old(images)@),
            is_file,
            match ext {
                Some(e) => Some(e@),
                None => None,
            },
            path@,
        ),
        old(images).len() <= SCAN_LIMIT ==> final(images).len() <= SCAN_LIMIT,
{
    if images.len() >= SCAN_LIMIT {
        return false;
    }
    if is_file {
        if let Some(e) = ext {
            if is_image_extension(e) {
                images.push(path);
                assert(path_views(images@) =~= path_views(old(images)@).push(path@));
            }
        }
    }
    true
}


/// A directory entry as the walk reports it: whether it is a file, its extension if
/// it has one, and its path.
pub type EntryView = (bool, Option<Seq<char>>, Seq<char>);

/// Whether the scan takes `e` as an image, limit aside.
pub open spec fn spec_accepts(e: EntryView) -> bool {
    e.0 && e.1 is Some && spec_is_image_extension(e.1->0)
}

/// The images a scan collects from `entries`, offered one after another.
pub open spec fn spec_scan(entries: Seq<EntryView>) -> Seq<Seq<char>>
    decreases entries.len(),
{
    if entries.len() == 0 {
        Seq::empty()
    } else {
        let e = entries.last();
        spec_offer(spec_scan(entries.drop_last()), e.0, e.1, e.2)
    }
}

/// Every image among `entries`, in walk order, with no limit.
pub open spec fn spec_all_images(entries: Seq<EntryView>) -> Seq<Seq<char>>
    decreases entries.len(),
{
    if entries.len() == 0 {
        Seq::empty()
    } else if spec_accepts(entries.last()) {
        spec_all_images(entries.drop_last()).push(entries.last().2)
    } else {
        spec_all_images(entries.drop_last())
    }
}

/// A scan collects the first `SCAN_LIMIT` images of the walk, in walk order, and all of
/// them when there are no more than that.
pub proof fn lemma_scan_takes_first_images(entries: Seq<EntryView>)
    ensures
        spec_scan(entries) == (if spec_all_images(entries).len() <= SCAN_LIMIT {
            spec_all_images(entries)
        } else {
            spec_all_images(entries).take(SCAN_LIMIT as int)
        }),
    decreases entries.len(),
{
    if entries.len() > 0 {
        let rest = entries.drop_last();
        lemma_scan_takes_first_images(rest);
        let a = spec_all_images(rest);
        if a.len() > SCAN_LIMIT {
            assert(spec_all_images(entries).take(SCAN_LIMIT as int) =~= a.take(SCAN_LIMIT as int));
        } else if a.len() == SCAN_LIMIT {
            assert(spec_all_images(entries).take(SCAN_LIMIT as int) =~= a);
        }
    }
}

/// A file is taken as an image exactly when its extension, in lowercase, is one of jpg,
/// jpeg, png, heic, heif, hif, webp, avif, jxl, tiff, tif, bmp, gif, svg or pdf; every
/// other extension (such as a video's) is refused, and so is a file with none.
pub proof fn lemma_image_extensions(ext: Seq<char>)
    ensures
        ({
            let lower = lowercase_of(ext);
            spec_is_image_extension(ext) <==> (lower == "jpg"@ || lower == "jpeg"@ || lower == "png"@ || lower == "heic"@ || lower == "heif"@ || lower == "hif"@ || lower == "webp"@ || lower == "avif"@ || lower == "jxl"@ || lower == "tiff"@ || lower == "tif"@ || lower == "bmp"@ || lower == "gif"@ || lower == "svg"@ || lower == "pdf"@)
        }),
{
    let lower = lowercase_of(ext);
    let all = spec_image_extensions();
    if spec_is_image_extension(ext) {
        let i = choose|i: int| 0 <= i < all.len() && all[i] == lower;
        assert(0 <= i < 15);
    }
    if lower == "jpg"@ {
        assert(all[0] == lower);
    }
    if lower == "jpeg"@ {
        assert(all[1] == lower);
    }
    if lower == "png"@ {
        assert(all[2] == lower);
    }
    if lower == "heic"@ {
        assert(all[3] == lower);
    }
    if lower == "heif"@ {
        assert(all[4] == lower);
    }
    if lower == "hif"@ {
        assert(all[5] == lower);
    }
    if lower == "webp"@ {
        assert(all[6] == lower);
    }
    if lower == "avif"@ {
        assert(all[7] == lower);
    }
    if lower == "jxl"@ {
        assert(all[8] == lower);
    }
    if lower == "tiff"@ {
        assert(all[9] == lower);
    }
    if lower == "tif"@ {
        assert(all[10] == lower);
    }
    if lower == "bmp"@ {
        assert(all[11] == lower);
    }
    if lower == "gif"@ {
        assert(all[12] == lower);
    }
    if lower == "svg"@ {
        assert(all[13] == lower);
    }
    if lower == "pdf"@ {
        assert(all[14] == lower);
    }
}

/// Entries that are not files, and files without an extension, are never collected.
pub proof fn lemma_only_image_files(images: Seq<Seq<char>>, is_file: bool, ext: Option<Seq<char>>, path: Seq<char>)
    ensures
        !is_file || ext is None ==> spec_offer(images, is_file, ext, path) == images,
        images.len() < SCAN_LIMIT && is_file && (ext matches Some(e) && spec_is_image_extension(e))
            ==> spec_offer(images, is_file, ext, path) == images.push(path),
{
}

} // verus!
