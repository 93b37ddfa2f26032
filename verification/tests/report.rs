use lumina_convert::report::{
    decode_error_message, file_result, progress_status, simulates_crash, success_message,
    summarize, FileOutcome,
};
use lumina_convert::setup::search_path_with;

#[test]
fn file_results() {
    assert_eq!(file_result("a.png", FileOutcome::Canceled), Err("用户取消".to_string()));
    assert_eq!(
        file_result("a.png", FileOutcome::Converted("成功: a.png -> b.jpg".to_string())),
        Ok("成功: a.png -> b.jpg".to_string())
    );
    assert_eq!(
        file_result("C:/x/a.png", FileOutcome::Failed("编码失败: boom".to_string())),
        Err("处理失败 C:/x/a.png: 编码失败: boom".to_string())
    );
    assert_eq!(
        file_result("a.png", FileOutcome::Crashed),
        Err("严重错误: 文件 a.png 导致底层崩溃".to_string())
    );
}

#[test]
fn statuses_and_messages() {
    assert_eq!(progress_status(true), "success");
    assert_eq!(progress_status(false), "failed");
    assert_eq!(success_message("a.HEIC", "a_heic_high.webp"), "成功: a.HEIC -> a_heic_high.webp");
}

#[test]
fn batch_summary() {
    let results = vec![Ok("a".to_string()), Err("b".to_string()), Ok("c".to_string())];
    let r = summarize(&results, false);
    assert_eq!((r.succeeded, r.failed), (2, 1));
    assert_eq!(r.message, "批量处理完成！成功: 2 张，失败: 1 张");
    let r = summarize(&results, true);
    assert_eq!((r.succeeded, r.failed), (2, 1));
    assert_eq!(r.message, "任务已安全终止！成功: 2 张");
    let r = summarize(&vec![], false);
    assert_eq!(r.message, "批量处理完成！成功: 0 张，失败: 0 张");
}

#[test]
fn decode_errors() {
    let hevc = "⚠️ Windows 环境缺失 HEVC 解码组件 (H.265 专利壁垒)。请确保打包时已注入 libheif.dll，或在微软商店安装 'HEVC 视频扩展'。";
    assert_eq!(decode_error_message("heic", "Error(\"VipsForeignLoad: No Loader found\")"), hevc);
    assert_eq!(decode_error_message("hif", "HEIF decode failed"), hevc);
    assert_eq!(decode_error_message("heif", "something"), "硬件解码失败(可能为损坏文件): something");
    assert_eq!(decode_error_message("jpg", "no loader"), "硬件解码失败(可能为损坏文件): no loader");
}

#[test]
fn simulated_crash_paths() {
    assert!(simulates_crash("/tmp/error.png"));
    assert!(simulates_crash("my_error_photo.jpg"));
    assert!(!simulates_crash("/tmp/Error.png"));
    assert!(!simulates_crash("/tmp/photo.png"));
}

#[test]
fn search_path() {
    assert_eq!(search_path_with("C:\\app\\vips\\bin", "C:\\Windows"), "C:\\app\\vips\\bin;C:\\Windows");
    assert_eq!(search_path_with("b", ""), "b;");
}
