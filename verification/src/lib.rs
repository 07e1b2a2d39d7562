//! Verified command-construction and progress-tracking core of a video
//! export pipeline driven by an external media transcoder.
//!
//! The library builds the transcoder's argument lists (trim, scale, crop,
//! concat, encode), synthesizes filter-graph strings, plans multi-clip
//! export jobs with per-phase progress windows, and turns the transcoder's
//! self-reported timestamp stream into throttled 0-100% progress events.
//! Everything here is pure computation; spawning the transcoder and all
//! file handling live outside the library.

pub mod args;
pub mod builder;
pub mod error;
pub mod export;
pub mod filter;
pub mod laws;
pub mod numfmt;
pub mod progress;

pub use builder::{FfmpegBuilder, RawInputConfig};
pub use error::{completion_result, FFmpegError, FFmpegResult};
pub use export::{
    audio_extract_args, plan_export, validate_export, ClipSpec, ExportPhase, ExportPlan,
    Resolution,
};
pub use progress::{parse_progress_line, ProgressTracker};
