//! Decision and formatting logic of a batch image converter: which encoder
//! settings a preset selects, how output files are named, how the rename
//! template is expanded, how work is scheduled and how a batch is reported.

pub mod text;
pub mod options;
pub mod encode;
pub mod naming;
pub mod plan;
pub mod schedule;
pub mod scan;
pub mod report;
pub mod setup;
pub mod convert;
