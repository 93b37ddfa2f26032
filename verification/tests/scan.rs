use lumina_convert::scan::{is_image_extension, offer_entry, SCAN_LIMIT};

#[test]
fn image_extensions_any_case() {
    for e in ["jpg", "JPG", "Jpeg", "png", "HEIC", "heif", "hif", "webp", "avif", "jxl", "TIFF", "tif", "bmp", "gif", "svg", "pdf"] {
        assert!(is_image_extension(e), "{}", e);
    }
    for e in ["txt", "", "jpgx", "raw", "mp4", "jp"] {
        assert!(!is_image_extension(e), "{}", e);
    }
}

#[test]
fn offer_keeps_image_files_only() {
    let mut images = Vec::new();
    assert!(offer_entry(&mut images, true, Some("JPG"), "a/b.JPG".to_string()));
    assert!(offer_entry(&mut images, true, Some("txt"), "a/c.txt".to_string()));
    assert!(offer_entry(&mut images, false, Some("png"), "a/dir.png".to_string()));
    assert!(offer_entry(&mut images, true, None, "a/noext".to_string()));
    assert!(offer_entry(&mut images, true, Some("png"), "a/d.png".to_string()));
    assert_eq!(images, vec!["a/b.JPG".to_string(), "a/d.png".to_string()]);
}

#[test]
fn scan_stops_at_limit() {
    let mut images = Vec::new();
    let mut offered = 0usize;
    for i in 0..(SCAN_LIMIT + 10) {
        if !offer_entry(&mut images, true, Some("png"), format!("{}.png", i)) {
            break;
        }
        offered += 1;
    }
    assert_eq!(images.len(), SCAN_LIMIT);
    assert_eq!(offered, SCAN_LIMIT);
    assert_eq!(images[0], "0.png");
    assert_eq!(images[SCAN_LIMIT - 1], format!("{}.png", SCAN_LIMIT - 1));
}
