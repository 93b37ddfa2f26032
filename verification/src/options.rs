//! The settings of one conversion batch, as the front end sends them.

use vstd::prelude::*;

verus! {

/// What the user chose for a batch: target format, quality preset, metadata policy,
/// output folder, resizing, bit depth, rename template and scheduling.
#[derive(Clone)]
pub struct ConvertOptions {
    pub format: String,
    pub preset: String,
    pub metadata: String,
    pub output_dir: String,
    pub resize_mode: String,
    pub resize_value: u32,
    pub bit_depth: String,
    pub rename_template: String,
    pub concurrency: u32,
    pub perf_mode: String,
}

} // verus!
