use lumina_convert::convert::{Action, Conversion, Event, Stage};
use lumina_convert::options::ConvertOptions;
use lumina_convert::plan::SampleDepth;

fn options(format: &str, preset: &str, resize_mode: &str, resize_value: u32, bit_depth: &str) -> ConvertOptions {
    ConvertOptions {
        format: format.to_string(),
        preset: preset.to_string(),
        metadata: "strip".to_string(),
        output_dir: "/out".to_string(),
        resize_mode: resize_mode.to_string(),
        resize_value,
        bit_depth: bit_depth.to_string(),
        rename_template: "{original}_{width}x{height}_{counter}".to_string(),
        concurrency: 0,
        perf_mode: "balanced".to_string(),
    }
}

fn start(o: ConvertOptions, path: &str, name: &str, stem: &str, ext: &str) -> (Conversion, Action) {
    Conversion::start(o, path, name, stem, ext, 7)
}

fn image(w: i32, h: i32) -> Event {
    Event::Image { width: w, height: h }
}

#[test]
fn crash_on_request() {
    let (c, a) = start(options("jpeg", "high", "none", 0, ""), "/in/error.png", "error.png", "error", "png");
    assert_eq!(a, Action::Crash);
    assert_eq!(c.stage(), Stage::Finished);
}

#[test]
fn full_conversion() {
    let (mut c, a) = start(options("jpeg", "high", "fit", 1000, "8bit"), "/in/photo.JPG", "photo.JPG", "photo", "JPG");
    assert_eq!(a, Action::DecodeFile);
    assert_eq!(c.step(image(4000, 3000)), Some(Action::AutoRotate));
    assert_eq!(c.step(image(4000, 3000)), Some(Action::Resize { numerator: 1000, denominator: 4000 }));
    assert_eq!(c.step(image(1000, 750)), Some(Action::ToSrgb));
    assert_eq!(c.step(image(1000, 750)), Some(Action::Cast(SampleDepth::Uchar)));
    assert_eq!(
        c.step(image(1000, 750)),
        Some(Action::PickName { base: "photo_1000x750_0007_jpg_high".to_string(), ext: "jpg".to_string() })
    );
    assert_eq!(
        c.step(Event::Named("photo_1000x750_0007_jpg_high (1).jpg".to_string())),
        Some(Action::Write { encoder: ".jpg[Q=95,optimize_coding,strip]".to_string() })
    );
    assert_eq!(
        c.step(Event::Written),
        Some(Action::Finish(Ok("成功: photo.JPG -> photo_1000x750_0007_jpg_high (1).jpg".to_string())))
    );
    assert_eq!(c.stage(), Stage::Finished);
    assert_eq!(c.step(Event::Written), None);
}

#[test]
fn falls_back_to_memory_decoding() {
    let (mut c, _) = start(options("png", "fast", "none", 0, ""), "/in/a.heic", "a.heic", "a", "HEIC");
    assert_eq!(c.step(Event::Failed("file".to_string())), Some(Action::ReadFile));
    assert_eq!(c.step(Event::BytesRead), Some(Action::DecodeBytes));
    assert_eq!(c.step(image(10, 20)), Some(Action::AutoRotate));
    assert_eq!(
        c.step(image(20, 10)),
        Some(Action::PickName { base: "a_20x10_0007_heic_fast".to_string(), ext: "png".to_string() })
    );
}

#[test]
fn read_and_decode_errors() {
    let (mut c, _) = start(options("png", "fast", "none", 0, ""), "/in/a.png", "a.png", "a", "png");
    c.step(Event::Failed("x".to_string()));
    assert_eq!(
        c.step(Event::Failed("No such file".to_string())),
        Some(Action::Finish(Err("读取文件失败: No such file".to_string())))
    );

    let (mut c, _) = start(options("png", "fast", "none", 0, ""), "/in/a.HIF", "a.HIF", "a", "HIF");
    c.step(Event::Failed("x".to_string()));
    c.step(Event::BytesRead);
    let hevc = "⚠️ Windows 环境缺失 HEVC 解码组件 (H.265 专利壁垒)。请确保打包时已注入 libheif.dll，或在微软商店安装 'HEVC 视频扩展'。";
    assert_eq!(c.step(Event::Failed("Error(\"No Loader\")".to_string())), Some(Action::Finish(Err(hevc.to_string()))));

    let (mut c, _) = start(options("png", "fast", "none", 0, ""), "/in/a.png", "a.png", "a", "png");
    c.step(Event::Failed("x".to_string()));
    c.step(Event::BytesRead);
    assert_eq!(
        c.step(Event::Failed("bad".to_string())),
        Some(Action::Finish(Err("硬件解码失败(可能为损坏文件): bad".to_string())))
    );
}

#[test]
fn rotate_error_ends_conversion() {
    let (mut c, _) = start(options("png", "fast", "none", 0, ""), "/in/a.png", "a.png", "a", "png");
    c.step(image(1, 1));
    assert_eq!(
        c.step(Event::Failed("VipsError".to_string())),
        Some(Action::Finish(Err("自动旋转失败: VipsError".to_string())))
    );
}

#[test]
fn transform_failures_keep_image() {
    let (mut c, _) = start(options("webp", "lossless", "percent", 50, "8bit"), "/in/b.tif", "b.tif", "b", "tif");
    c.step(image(800, 600));
    assert_eq!(c.step(image(800, 600)), Some(Action::Resize { numerator: 50, denominator: 100 }));
    assert_eq!(c.step(Event::Failed("r".to_string())), Some(Action::ToSrgb));
    assert_eq!(c.step(Event::Failed("s".to_string())), Some(Action::Cast(SampleDepth::Uchar)));
    assert_eq!(
        c.step(Event::Failed("c".to_string())),
        Some(Action::PickName { base: "b_800x600_0007_tif_lossless".to_string(), ext: "webp".to_string() })
    );
    assert_eq!(
        c.step(Event::Named("b_800x600_0007_tif_lossless.webp".to_string())),
        Some(Action::Write { encoder: ".webp[lossless,strip]".to_string() })
    );
    assert_eq!(
        c.step(Event::Failed("disk full".to_string())),
        Some(Action::Finish(Err("编码失败: disk full".to_string())))
    );
}

#[test]
fn unsupported_format_after_naming() {
    let (mut c, _) = start(options("raw", "fast", "none", 0, "16bit"), "/in/c.png", "c.png", "c", "png");
    c.step(image(5, 5));
    assert_eq!(
        c.step(image(5, 5)),
        Some(Action::PickName { base: "c_5x5_0007_png_fast".to_string(), ext: "raw".to_string() })
    );
    assert_eq!(
        c.step(Event::Named("c_5x5_0007_png_fast.raw".to_string())),
        Some(Action::Finish(Err("不支持的格式".to_string())))
    );
}

#[test]
fn out_of_order_events_are_refused() {
    let (mut c, _) = start(options("png", "fast", "none", 0, ""), "/in/a.png", "a.png", "a", "png");
    assert_eq!(c.step(Event::Written), None);
    assert_eq!(c.step(Event::BytesRead), None);
    assert_eq!(c.stage(), Stage::DecodingFile);
    assert_eq!(c.step(image(3, 3)), Some(Action::AutoRotate));
}

#[test]
fn sixteen_bit_png_casts_to_ushort() {
    let (mut c, _) = start(options("png", "high", "none", 0, "16bit"), "/in/d.png", "d.png", "d", "png");
    c.step(image(2, 2));
    assert_eq!(c.step(image(2, 2)), Some(Action::Cast(SampleDepth::Ushort)));
}

#[test]
fn steps_never_exceed_nine() {
    let (mut c, mut a) = start(options("jpeg", "fast", "fit", 1, "8bit"), "/in/e.jpg", "e.jpg", "e", "jpg");
    let mut steps = 0;
    loop {
        let ev = match a {
            Action::Finish(_) => break,
            Action::DecodeFile => Event::Failed("f".to_string()),
            Action::ReadFile => Event::BytesRead,
            Action::PickName { .. } => Event::Named("e.jpg".to_string()),
            Action::Write { .. } => Event::Written,
            _ => image(4, 4),
        };
        a = c.step(ev).unwrap();
        steps += 1;
    }
    assert!(steps <= 9);
    assert_eq!(steps, 9);
}
