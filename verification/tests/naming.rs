use lumina_convert::naming::{
    base_name, candidate_name, render_template, source_extension, OutputNameSearch,
    LAST_CANDIDATE,
};

fn std_render(t: &str, o: &str, w: i32, h: i32, e: &str, c: usize) -> String {
    t.replace("{original}", o)
        .replace("{width}", &w.to_string())
        .replace("{height}", &h.to_string())
        .replace("{ext}", e)
        .replace("{counter}", &format!("{:04}", c))
}

#[test]
fn template_expansion() {
    assert_eq!(
        render_template("{original}_{width}x{height}_{counter}", "photo", 1920, 1080, "jpg", 7),
        "photo_1920x1080_0007"
    );
    assert_eq!(render_template("{original}", "IMG_01", 1, 1, "png", 1), "IMG_01");
    assert_eq!(render_template("plain", "x", 1, 1, "png", 1), "plain");
    assert_eq!(render_template("{counter}-{counter}", "x", 1, 1, "png", 12345), "12345-12345");
}

#[test]
fn template_replaces_in_order() {
    // a stem that contains a later placeholder gets that placeholder expanded too
    assert_eq!(render_template("{original}", "a{ext}", 1, 1, "png", 1), "apng");
    assert_eq!(render_template("{ext}", "x", 1, 1, "{original}", 1), "{original}");
    let cases = [
        ("{original}_{ext}_{width}", "图{counter}", 640, -3, "heic", 0usize),
        ("{{original}}", "}{", 10, 20, "e", 3),
        ("{width}{height}{counter}{ext}{original}", "", 0, 0, "", 10000),
    ];
    for (t, o, w, h, e, c) in cases {
        assert_eq!(render_template(t, o, w, h, e, c), std_render(t, o, w, h, e, c));
    }
}

#[test]
fn base_and_candidate_names() {
    assert_eq!(base_name("photo", "jpg", "high"), "photo_jpg_high");
    assert_eq!(base_name("", "", ""), "__");
    assert_eq!(candidate_name("photo_jpg_high", 0, "webp"), "photo_jpg_high.webp");
    assert_eq!(candidate_name("photo_jpg_high", 1, "webp"), "photo_jpg_high (1).webp");
    assert_eq!(candidate_name("b", 9999, "png"), "b (9999).png");
}

#[test]
fn source_extension_is_lowercase() {
    assert_eq!(source_extension("JPG"), "jpg");
    assert_eq!(source_extension("HeIc"), "heic");
    assert_eq!(source_extension("ÄB"), "äb");
}

fn settle(existing: &dyn Fn(&str) -> bool) -> (String, Vec<String>) {
    let mut search = OutputNameSearch::new("p_jpg_fast", "jpg");
    let mut asked = Vec::new();
    loop {
        let name = search.candidate();
        asked.push(name.clone());
        if search.record(existing(&name)) {
            break;
        }
    }
    (search.candidate(), asked)
}

#[test]
fn search_takes_first_free_name() {
    let (name, asked) = settle(&|_| false);
    assert_eq!(name, "p_jpg_fast.jpg");
    assert_eq!(asked, vec!["p_jpg_fast.jpg".to_string()]);

    let taken = ["p_jpg_fast.jpg", "p_jpg_fast (1).jpg", "p_jpg_fast (2).jpg"];
    let (name, asked) = settle(&|n| taken.contains(&n));
    assert_eq!(name, "p_jpg_fast (3).jpg");
    assert_eq!(asked.len(), 4);
}

#[test]
fn search_stops_at_last_candidate() {
    let (name, asked) = settle(&|_| true);
    assert_eq!(name, format!("p_jpg_fast ({}).jpg", LAST_CANDIDATE));
    // candidates 0..=9998 are asked about, the last one is taken unasked
    assert_eq!(asked.len(), LAST_CANDIDATE as usize);
}

#[test]
fn settled_search_stays_put() {
    let mut search = OutputNameSearch::new("b", "png");
    assert!(search.record(false));
    assert!(search.record(false));
    assert_eq!(search.candidate(), "b.png");
}
