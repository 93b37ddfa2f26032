//! What the converter reports: the result of each file, its progress status, the
//! summary of a batch and the messages for a decode failure.

use vstd::prelude::*;
use crate::text::{
    occurs_at, contains_str, decimal_string, lowercase, lowercase_of, spec_contains, spec_decimal, str_eq,
};

verus! {

/// How the work on one file ended.
pub enum FileOutcome {
    /// The batch was cancelled before the file was started.
    Canceled,
    /// The file was converted; the message names the input and output files.
    Converted(String),
    /// The conversion returned an error.
    Failed(String),
    /// The conversion panicked.
    Crashed,
}

/// The result recorded for a file at `path`.
pub open spec fn spec_file_result(path: Seq<char>, outcome: FileOutcome) -> Result<Seq<char>, Seq<char>> {
    match outcome {
        FileOutcome::Canceled => Err("用户取消"@),
        FileOutcome::Converted(m) => Ok(m@),
        FileOutcome::Failed(e) => Err("处理失败 "@ + path + ": "@ + e@),
        FileOutcome::Crashed => Err("严重错误: 文件 "@ + path + " 导致底层崩溃"@),
    }
}

/// The message for a converted file: `成功: input -> output`.
pub open spec fn spec_success_message(input_name: Seq<char>, output_name: Seq<char>) -> Seq<char> {
    "成功: "@ + input_name + " -> "@ + output_name
}

/// The number of successful results.
pub open spec fn spec_count_ok(results: Seq<Result<String, String>>) -> nat
    decreases results.len(),
{
    if results.len() == 0 {
        0
    } else {
        spec_count_ok(results.drop_last()) + if results.last() is Ok {
            1nat
        } else {
            0nat
        }
    }
}

/// The closing message of a batch with `ok` successes and `failed` failures.
pub open spec fn spec_summary_message(ok: nat, failed: nat, canceled: bool) -> Seq<char> {
    if canceled {
        "任务已安全终止！成功: "@ + spec_decimal(ok) + " 张"@
    } else {
        "批量处理完成！成功: "@ + spec_decimal(ok) + " 张，失败: "@ + spec_decimal(failed) + " 张"@
    }
}

/// The message that tells the user the HEVC decoder is missing.
pub open spec fn spec_hevc_missing_message() -> Seq<char> {
    "⚠️ Windows 环境缺失 HEVC 解码组件 (H.265 专利壁垒)。请确保打包时已注入 libheif.dll，或在微软商店安装 'HEVC 视频扩展'。"@
}

/// The message for an image that could not be decoded from memory: a HEIF source
/// whose error (compared in lowercase) mentions a missing loader or HEIF is blamed on
/// the missing HEVC decoder; any other failure is reported with the decoder's error.
pub open spec fn spec_decode_error_message(original_ext: Seq<char>, error_text: Seq<char>) -> Seq<char> {
    let lower = lowercase_of(error_text);
    if (original_ext == "hif"@ || original_ext == "heic"@ || original_ext == "heif"@) && (
    spec_contains(lower, "no loader"@) || spec_contains(lower, "heif"@)) {
        spec_hevc_missing_message()
    } else {
        "硬件解码失败(可能为损坏文件): "@ + error_text
    }
}

/// Whether the file at `path` is one the converter deliberately crashes on, to
/// exercise crash isolation: its path contains `error`.
pub open spec fn spec_simulates_crash(path: Seq<char>) -> bool {
    spec_contains(path, "error"@)
}

/// The result recorded for a file at `path`.
pub fn file_result(path: &str, outcome: FileOutcome) -> (r: Result<String, String>)
    ensures
        match spec_file_result(path@, outcome) {
            Ok(m) => r matches Ok(x) && x@ == m,
            Err(e) => r matches Err(x) && x@ == e,
        },
{
    match outcome {
        FileOutcome::Canceled => Err(String::from_str("用户取消")),
        FileOutcome::Converted(m) => Ok(m),
        FileOutcome::Failed(e) => {
            let mut r = String::from_str("处理失败 ");
            r.append(path);
            r.append(": ");
            r.append(e.as_str());
            Err(r)
        },
        FileOutcome::Crashed => {
            let mut r = String::from_str("严重错误: 文件 ");
            r.append(path);
            r.append(" 导致底层崩溃");
            Err(r)
        },
    }
}

/// The progress status sent for a finished file: `success` for a converted file,
/// `failed` otherwise.
pub fn progress_status(converted: bool) -> (r: &'static str)
    ensures
        r@ == if converted {
            "success"@
        } else {
            "failed"@
        },
{
    if converted {
        "success"
    } else {
        "failed"
    }
}

/// The message for a converted file.
pub fn success_message(input_name: &str, output_name: &str) -> (r: String)
    ensures
        r@ == spec_success_message(input_name@, output_name@),
{
    let mut r = String::from_str("成功: ");
    r.append(input_name);
    r.append(" -> ");
    r.append(output_name);
    r
}

/// The counts and closing message of a batch.
pub struct BatchReport {
    pub succeeded: usize,
    pub failed: usize,
    pub message: String,
}

/// The report of a batch with these per-file results.
pub fn summarize(results: &Vec<Result<String, String>>, canceled: bool) -> (r: BatchReport)
    ensures
        r.succeeded == spec_count_ok(results@),
        r.succeeded + r.failed == results.len(),
        r.message@ == spec_summary_message(r.succeeded as nat, r.failed as nat, canceled),
{
    let mut ok: usize = 0;
    let mut i: usize = 0;
    while i < results.len()
        invariant
            i <= results.len(),
            ok == spec_count_ok(results@.take(i as int)),
            ok <= i,
        decreases results.len() - i,
    {
        assert(results@.take(i + 1).drop_last() =~= results@.take(i as int));
        if results[i].is_ok() {
            ok = ok + 1;
        }
        i = i + 1;
    }
    assert(results@.take(results.len() as int) =~= results@);
    let failed = results.len() - ok;
    let message = if canceled {
        let mut m = String::from_str("任务已安全终止！成功: ");
        let n = decimal_string(ok as u64);
        m.append(n.as_str());
        m.append(" 张");
        m
    } else {
        let mut m = String::from_str("批量处理完成！成功: ");
        let n = decimal_string(ok as u64);
        m.append(n.as_str());
        m.append(" 张，失败: ");
        let f = decimal_string(failed as u64);
        m.append(f.as_str());
        m.append(" 张");
        m
    };
    BatchReport { succeeded: ok, failed, message }
}

/// The message for an image that could not be decoded from memory.
pub fn decode_error_message(original_ext: &str, error_text: &str) -> (r: String)
    ensures
        r@ == spec_decode_error_message(original_ext@, error_text@),
{
    let lower = lowercase(error_text);
    let heif_source = str_eq(original_ext, "hif") || str_eq(original_ext, "heic") || str_eq(
        original_ext,
        "heif",
    );
    if heif_source && (contains_str(lower.as_str(), "no loader") || contains_str(
        lower.as_str(),
        "heif",
    )) {
        String::from_str(
            "⚠️ Windows 环境缺失 HEVC 解码组件 (H.265 专利壁垒)。请确保打包时已注入 libheif.dll，或在微软商店安装 'HEVC 视频扩展'。",
        )
    } else {
        let mut r = String::from_str("硬件解码失败(可能为损坏文件): ");
        r.append(error_text);
        r
    }
}

/// Whether the converter deliberately crashes on the file at `path`.
pub fn simulates_crash(path: &str) -> (r: bool)
    ensures
        r == spec_simulates_crash(path@),
{
    contains_str(path, "error")
}

/// A file's result is a success exactly when it was converted, which is when its
/// progress status is `success`.
pub proof fn lemma_status_agrees_with_result(path: Seq<char>, outcome: FileOutcome)
    ensures
        (spec_file_result(path, outcome) is Ok) <==> (outcome is Converted),
{
}

/// A batch never counts more successes than it has results.
pub proof fn lemma_count_ok_bounded(results: Seq<Result<String, String>>)
    ensures
        spec_count_ok(results) <= results.len(),
    decreases results.len(),
{
    if results.len() > 0 {
        lemma_count_ok_bounded(results.drop_last());
    }
}

/// A file's result names the file: a failure reports the path and ends with the
/// converter's own error, a crash reports the path, a cancelled file is `用户取消`, and a
/// converted file keeps the converter's message as its success.
pub proof fn lemma_file_result_names_file(path: Seq<char>, outcome: FileOutcome)
    ensures
        outcome matches FileOutcome::Failed(e) ==> (spec_file_result(path, outcome) matches Err(m)
            && spec_contains(m, path) && m.skip(m.len() - e@.len()) == e@),
        outcome matches FileOutcome::Crashed ==> (spec_file_result(path, outcome) matches Err(m)
            && spec_contains(m, path)),
        outcome matches FileOutcome::Converted(x) ==> spec_file_result(path, outcome) == Ok::<
            Seq<char>,
            Seq<char>,
        >(x@),
        outcome matches FileOutcome::Canceled ==> spec_file_result(path, outcome) == Err::<
            Seq<char>,
            Seq<char>,
        >("用户取消"@),
{
    match outcome {
        FileOutcome::Failed(e) => {
            let m = "处理失败 "@ + path + ": "@ + e@;
            let k = "处理失败 "@.len() as int;
            assert(m.subrange(k, k + path.len()) =~= path);
            assert(occurs_at(m, path, k));
            assert(m.skip(m.len() - e@.len()) =~= e@);
        },
        FileOutcome::Crashed => {
            let m = "严重错误: 文件 "@ + path + " 导致底层崩溃"@;
            let k = "严重错误: 文件 "@.len() as int;
            assert(m.subrange(k, k + path.len()) =~= path);
            assert(occurs_at(m, path, k));
        },
        _ => {},
    }
}

/// The success message names the input file and then the output file.
pub proof fn lemma_success_message_names_files(input_name: Seq<char>, output_name: Seq<char>)
    ensures
        spec_contains(spec_success_message(input_name, output_name), input_name),
        spec_success_message(input_name, output_name).skip(
            spec_success_message(input_name, output_name).len() - output_name.len(),
        ) == output_name,
{
    let m = spec_success_message(input_name, output_name);
    let k = "成功: "@.len() as int;
    assert(m.subrange(k, k + input_name.len()) =~= input_name);
    assert(occurs_at(m, input_name, k));
    assert(m.skip(m.len() - output_name.len()) =~= output_name);
}

/// The closing message reports the number of successes, and, unless the batch was
/// cancelled, the number of failures; a cancelled batch's message differs from a
/// finished one's.
pub proof fn lemma_summary_reports_counts(ok: nat, failed: nat)
    ensures
        spec_contains(spec_summary_message(ok, failed, true), spec_decimal(ok)),
        spec_contains(spec_summary_message(ok, failed, false), spec_decimal(ok)),
        spec_contains(spec_summary_message(ok, failed, false), spec_decimal(failed)),
        spec_summary_message(ok, failed, true) != spec_summary_message(ok, failed, false),
{
    reveal_strlit("任务已安全终止！成功: ");
    reveal_strlit("批量处理完成！成功: ");
    let a = spec_summary_message(ok, failed, true);
    let b = spec_summary_message(ok, failed, false);
    let d = spec_decimal(ok);
    let f = spec_decimal(failed);
    let ka = "任务已安全终止！成功: "@.len() as int;
    let kb = "批量处理完成！成功: "@.len() as int;
    assert(a.subrange(ka, ka + d.len()) =~= d);
    assert(occurs_at(a, d, ka));
    assert(b.subrange(kb, kb + d.len()) =~= d);
    assert(occurs_at(b, d, kb));
    let kf = kb + d.len() + " 张，失败: "@.len();
    assert(b.subrange(kf, kf + f.len()) =~= f);
    assert(occurs_at(b, f, kf));
    assert(a[0] == '任');
    assert(b[0] == '批');
}

} // verus!
