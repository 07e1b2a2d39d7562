//! The export orchestrator's pure core: request validation, resolution
//! names, and the planner that turns an ordered list of clips into the
//! exact sequence of transcoder invocations, scratch file names, concat
//! list contents and per-phase progress windows. Running the phases,
//! writing the scratch files and deleting them happen outside the
//! library; everything they need is computed and proved here.
//!
//! A single clip becomes one invocation spanning the whole progress bar,
//! written straight to the final path. Several clips are each normalized
//! to a uniquely named scratch file (windows share the first 90% of the
//! bar in proportion to duration), then re-muxed by one concat phase
//! owning the last 10%.

use vstd::prelude::*;
use vstd::arithmetic::div_mod::{
    lemma_div_is_ordered, lemma_div_multiples_vanish, lemma_fundamental_div_mod,
    lemma_mod_bound,
};

use crate::args::{push_string, push_tok, spec_build_args};
use crate::builder::{BuilderSpec, FfmpegBuilder};
use crate::error::FFmpegError;
use crate::numfmt::{dec_str, u64_to_string};
use crate::progress::overall_progress;

verus! {

/// One clip of an export request: source path, trim range in
/// milliseconds, and its audio treatment. Mute wins over a volume factor.
pub struct ClipSpec {
    pub path: String,
    pub trim_start_ms: u64,
    pub trim_end_ms: u64,
    pub volume: Option<u32>,
    pub muted: bool,
}

/// Mathematical model of a clip.
#[verifier::ext_equal]
pub ghost struct ClipView {
    pub path: Seq<char>,
    pub trim_start_ms: u64,
    pub trim_end_ms: u64,
    pub volume: Option<u32>,
    pub muted: bool,
}

impl View for ClipSpec {
    type V = ClipView;

    open spec fn view(&self) -> ClipView {
        ClipView {
            path: self.path@,
            trim_start_ms: self.trim_start_ms,
            trim_end_ms: self.trim_end_ms,
            volume: self.volume,
            muted: self.muted,
        }
    }
}

/// A well-formed clip: a non-empty trim range and an in-range volume.
pub open spec fn clip_wf(c: ClipView) -> bool {
    &&& c.trim_start_ms < c.trim_end_ms
    &&& (c.volume is Some ==> c.volume->0 <= 100)
}

/// A clip's duration in milliseconds.
pub open spec fn clip_duration_ms(c: ClipView) -> int {
    c.trim_end_ms - c.trim_start_ms
}

impl ClipSpec {
    /// Build a clip, clamping the volume and rejecting an empty or
    /// reversed trim range.
    pub fn new(
        path: &str,
        trim_start_ms: u64,
        trim_end_ms: u64,
        volume: Option<u32>,
        muted: bool,
    ) -> (r: Option<ClipSpec>)
        ensures
            r is Some <==> trim_start_ms < trim_end_ms,
            r is Some ==> clip_wf(r->0@) && r->0@ == (ClipView {
                path: path@,
                trim_start_ms,
                trim_end_ms,
                volume: match volume {
                    Some(v) => Some(if v > 100 { 100u32 } else { v }),
                    None => None,
                },
                muted,
            }),
    {
        if trim_start_ms < trim_end_ms {
            Some(ClipSpec {
                path: String::from_str(path),
                trim_start_ms,
                trim_end_ms,
                volume: match volume {
                    Some(v) => Some(if v > 100 { 100 } else { v }),
                    None => None,
                },
                muted,
            })
        } else {
            None
        }
    }
}

/// The views of a clip list.
pub open spec fn clip_views(s: Seq<ClipSpec>) -> Seq<ClipView> {
    s.map_values(|c: ClipSpec| c@)
}

/// The sum of the clips' durations in milliseconds.
pub open spec fn total_duration_ms(s: Seq<ClipView>) -> int
    decreases s.len(),
{
    if s.len() == 0 {
        0
    } else {
        total_duration_ms(s.drop_last()) + clip_duration_ms(s.last())
    }
}

/// A named output resolution.
#[derive(Clone, Copy, Debug, PartialEq, Eq, Structural)]
pub enum Resolution {
    /// Keep the source resolution; currently rendered at the default box.
    Source,
    R480p,
    R720p,
    R1080p,
    R4K,
}

/// The output box of a resolution. The source resolution falls back to
/// the default box rather than probing the first clip.
pub open spec fn spec_dimensions(r: Resolution) -> (u32, u32) {
    match r {
        Resolution::Source => (1280u32, 720u32),
        Resolution::R480p => (854u32, 480u32),
        Resolution::R720p => (1280u32, 720u32),
        Resolution::R1080p => (1920u32, 1080u32),
        Resolution::R4K => (3840u32, 2160u32),
    }
}

/// The resolution a name denotes, if any.
pub open spec fn spec_parse_resolution(name: Seq<u8>) -> Option<Resolution> {
    if name == seq!['s' as u8, 'o' as u8, 'u' as u8, 'r' as u8, 'c' as u8, 'e' as u8] {
        Some(Resolution::Source)
    } else if name == seq!['4' as u8, '8' as u8, '0' as u8, 'p' as u8] {
        Some(Resolution::R480p)
    } else if name == seq!['7' as u8, '2' as u8, '0' as u8, 'p' as u8] {
        Some(Resolution::R720p)
    } else if name == seq!['1' as u8, '0' as u8, '8' as u8, '0' as u8, 'p' as u8] {
        Some(Resolution::R1080p)
    } else if name == seq!['4' as u8, 'K' as u8] {
        Some(Resolution::R4K)
    } else {
        None
    }
}

impl Resolution {
    /// The output box this resolution renders into.
    pub fn dimensions(&self) -> (r: (u32, u32))
        ensures
            r == spec_dimensions(*self),
    {
        match self {
            Resolution::Source => (1280, 720),
            Resolution::R480p => (854, 480),
            Resolution::R720p => (1280, 720),
            Resolution::R1080p => (1920, 1080),
            Resolution::R4K => (3840, 2160),
        }
    }

    /// Parse a resolution name given as bytes.
    pub fn parse(name: &[u8]) -> (r: Option<Resolution>)
        ensures
            r == spec_parse_resolution(name@),
    {
        if name.len() == 6 && name[0] == 's' as u8 && name[1] == 'o' as u8 && name[2] == 'u' as u8
            && name[3] == 'r' as u8 && name[4] == 'c' as u8 && name[5] == 'e' as u8 {
            proof {
                assert(name@ =~= seq!['s' as u8, 'o' as u8, 'u' as u8, 'r' as u8, 'c' as u8, 'e' as u8]);
            }
            Some(Resolution::Source)
        } else if name.len() == 4 && name[0] == '4' as u8 && name[1] == '8' as u8 && name[2]
            == '0' as u8 && name[3] == 'p' as u8 {
            proof {
                assert(name@ =~= seq!['4' as u8, '8' as u8, '0' as u8, 'p' as u8]);
            }
            Some(Resolution::R480p)
        } else if name.len() == 4 && name[0] == '7' as u8 && name[1] == '2' as u8 && name[2]
            == '0' as u8 && name[3] == 'p' as u8 {
            proof {
                assert(name@ =~= seq!['7' as u8, '2' as u8, '0' as u8, 'p' as u8]);
            }
            Some(Resolution::R720p)
        } else if name.len() == 5 && name[0] == '1' as u8 && name[1] == '0' as u8 && name[2]
            == '8' as u8 && name[3] == '0' as u8 && name[4] == 'p' as u8 {
            proof {
                assert(name@ =~= seq!['1' as u8, '0' as u8, '8' as u8, '0' as u8, 'p' as u8]);
            }
            Some(Resolution::R1080p)
        } else if name.len() == 2 && name[0] == '4' as u8 && name[1] == 'K' as u8 {
            proof {
                assert(name@ =~= seq!['4' as u8, 'K' as u8]);
            }
            Some(Resolution::R4K)
        } else {
            proof {
                assert(spec_parse_resolution(name@) is None);
            }
            None
        }
    }
}

/// The message carried by an input-validation error, when it is one.
pub open spec fn invalid_path_msg(r: Result<(), FFmpegError>) -> Seq<char> {
    match r {
        Err(FFmpegError::InvalidPath(m)) => m@,
        _ => Seq::empty(),
    }
}

/// Validate an export request before anything is spawned or written:
/// the clip list must be non-empty and every source path must exist,
/// where `exists` reports, per clip, whether its path does.
pub fn validate_export(clips: &Vec<ClipSpec>, exists: &Vec<bool>) -> (r: Result<(), FFmpegError>)
    requires
        exists@.len() == clips@.len(),
    ensures
        r is Ok <==> (clips@.len() > 0 && forall|i: int|
            0 <= i < exists@.len() ==> exists@[i]),
        r is Err ==> r->Err_0 is InvalidPath,
        clips@.len() == 0 ==> r is Err && invalid_path_msg(r) == "No clips provided for export"@,
        (clips@.len() > 0 && r is Err) ==> exists|i: int|
            {
                &&& 0 <= i < clips@.len()
                &&& !exists@[i]
                &&& (forall|j: int| 0 <= j < i ==> exists@[j])
                &&& invalid_path_msg(r) == "Clip not found: "@ + clips@[i]@.path
            },
{
    if clips.len() == 0 {
        return Err(FFmpegError::InvalidPath(String::from_str("No clips provided for export")));
    }
    let n = clips.len();
    let mut i: usize = 0;
    while i < n
        invariant
            n == clips@.len() == exists@.len(),
            0 <= i <= n,
            forall|j: int| 0 <= j < i ==> exists@[j],
        decreases n - i,
    {
        if !exists[i] {
            let mut m = String::from_str("Clip not found: ");
            m.append(clips[i].path.as_str());
            return Err(FFmpegError::InvalidPath(m));
        }
        i = i + 1;
    }
    Ok(())
}

/// One transcoder invocation of an export job: its argument list, its
/// duration for progress purposes, its window of the overall progress
/// bar, and the file it writes.
pub struct ExportPhase {
    pub args: Vec<String>,
    pub duration_ms: u64,
    pub progress_offset: u32,
    pub progress_range: u32,
    pub output_path: String,
}

/// Mathematical model of a phase.
#[verifier::ext_equal]
pub ghost struct PhaseView {
    pub args: Seq<Seq<char>>,
    pub duration_ms: u64,
    pub progress_offset: u32,
    pub progress_range: u32,
    pub output_path: Seq<char>,
}

impl View for ExportPhase {
    type V = PhaseView;

    open spec fn view(&self) -> PhaseView {
        PhaseView {
            args: self.args.deep_view(),
            duration_ms: self.duration_ms,
            progress_offset: self.progress_offset,
            progress_range: self.progress_range,
            output_path: self.output_path@,
        }
    }
}

/// A whole export job, planned: the per-clip phases in order, and for a
/// multi-clip job the concat list scratch file (path and contents) and
/// the final concat phase. Every file the phases write other than the
/// final output is a scratch artifact to delete when the job ends.
pub struct ExportPlan {
    pub clip_phases: Vec<ExportPhase>,
    pub concat_list_path: Option<String>,
    pub concat_list_content: Option<String>,
    pub concat_phase: Option<ExportPhase>,
    pub output_path: String,
}

/// The builder state for normalizing one clip: trim, scale with padding
/// into the output box, the default encode profile, the clip's audio
/// treatment, and progress reporting.
pub open spec fn clip_builder(c: ClipView, w: u32, h: u32, out: Seq<char>) -> BuilderSpec {
    BuilderSpec {
        input: Some(c.path),
        output: Some(out),
        trim_start_ms: Some(c.trim_start_ms),
        trim_duration_ms: Some((c.trim_end_ms - c.trim_start_ms) as u64),
        scale_width: Some(w),
        scale_height: Some(h),
        crop_width: None,
        crop_height: None,
        crop_x: None,
        crop_y: None,
        video_codec: Some("libx264"@),
        audio_codec: Some("aac"@),
        preset: Some("medium"@),
        crf: Some(23u32),
        audio_bitrate: Some("128k"@),
        progress_enabled: true,
        thumbnail_ms: None,
        stream_copy: false,
        raw_input: None,
        concat_list: None,
        pixel_format: None,
        scale_pad: true,
        volume: if c.muted {
            None
        } else {
            c.volume
        },
        muted: c.muted,
    }
}

/// The builder state for the final concat phase: read the list file,
/// stream-copy, report progress.
pub open spec fn concat_builder(list: Seq<char>, out: Seq<char>) -> BuilderSpec {
    BuilderSpec {
        input: None,
        output: Some(out),
        trim_start_ms: None,
        trim_duration_ms: None,
        scale_width: None,
        scale_height: None,
        crop_width: None,
        crop_height: None,
        crop_x: None,
        crop_y: None,
        video_codec: None,
        audio_codec: None,
        preset: None,
        crf: None,
        audio_bitrate: None,
        progress_enabled: true,
        thumbnail_ms: None,
        stream_copy: true,
        raw_input: None,
        concat_list: Some(list),
        pixel_format: None,
        scale_pad: false,
        volume: None,
        muted: false,
    }
}

/// The scratch file a clip phase renders to, derived from the job
/// identifier so that concurrent jobs never collide.
pub open spec fn scratch_clip_path(dir: Seq<char>, job: u64, i: int) -> Seq<char> {
    dir + "/export_"@ + dec_str(job as nat) + "_clip_"@ + dec_str(i as nat) + ".mp4"@
}

/// The concat list scratch file of a job.
pub open spec fn scratch_list_path(dir: Seq<char>, job: u64) -> Seq<char> {
    dir + "/export_"@ + dec_str(job as nat) + "_concat.txt"@
}

/// The contents of a concat list: one `file '<path>'` line per source,
/// in order.
pub open spec fn concat_content(paths: Seq<Seq<char>>) -> Seq<char>
    decreases paths.len(),
{
    if paths.len() == 0 {
        Seq::empty()
    } else {
        concat_content(paths.drop_last()) + "file '"@ + paths.last() + "'\n"@
    }
}

/// The progress-window offset of a clip phase: the share of total
/// duration already rendered, scaled into the first 90% of the bar.
pub open spec fn window_offset(total: int, completed: int) -> int {
    completed * 90 / total
}

/// The progress-window range of a clip phase: its share of total
/// duration, scaled into the first 90% of the bar.
pub open spec fn window_range(total: int, d: int) -> int {
    d * 90 / total
}

/// The phase of clip `i` in a multi-clip job.
pub open spec fn spec_multi_phase(
    cv: Seq<ClipView>,
    i: int,
    w: u32,
    h: u32,
    dir: Seq<char>,
    job: u64,
) -> PhaseView {
    let total = total_duration_ms(cv);
    let completed = total_duration_ms(cv.take(i));
    let out = scratch_clip_path(dir, job, i);
    PhaseView {
        args: spec_build_args(clip_builder(cv[i], w, h, out)),
        duration_ms: clip_duration_ms(cv[i]) as u64,
        progress_offset: window_offset(total, completed) as u32,
        progress_range: window_range(total, clip_duration_ms(cv[i])) as u32,
        output_path: out,
    }
}

/// The single phase of a one-clip job: it writes the final output and
/// owns the whole progress bar.
pub open spec fn spec_single_phase(c: ClipView, w: u32, h: u32, out: Seq<char>) -> PhaseView {
    PhaseView {
        args: spec_build_args(clip_builder(c, w, h, out)),
        duration_ms: clip_duration_ms(c) as u64,
        progress_offset: 0u32,
        progress_range: 100u32,
        output_path: out,
    }
}

/// The concat phase of a multi-clip job: offset 90, range 10, duration
/// estimated at a tenth of the total.
pub open spec fn spec_concat_phase(
    cv: Seq<ClipView>,
    out: Seq<char>,
    dir: Seq<char>,
    job: u64,
) -> PhaseView {
    PhaseView {
        args: spec_build_args(concat_builder(scratch_list_path(dir, job), out)),
        duration_ms: (total_duration_ms(cv) / 10) as u64,
        progress_offset: 90u32,
        progress_range: 10u32,
        output_path: out,
    }
}

/// The scratch render paths of a multi-clip job, in clip order.
pub open spec fn spec_scratch_paths(n: int, dir: Seq<char>, job: u64) -> Seq<Seq<char>> {
    Seq::new(n as nat, |i: int| scratch_clip_path(dir, job, i))
}

/// A prefix of the clip list lasts no longer than the whole list.
proof fn lemma_total_prefix_le(s: Seq<ClipView>, j: int)
    requires
        0 <= j <= s.len(),
        forall|i: int| 0 <= i < s.len() ==> clip_wf(#[trigger] s[i]),
    ensures
        0 <= total_duration_ms(s.take(j)) <= total_duration_ms(s),
        total_duration_ms(s.take(j + 1) ) == total_duration_ms(s.take(j)) + clip_duration_ms(s[j])
            || j == s.len(),
    decreases s.len() - j,
{
    lemma_total_nonneg(s.take(j));
    if j == s.len() {
        assert(s.take(j) =~= s);
    } else {
        assert(s.take(j + 1).drop_last() =~= s.take(j));
        assert(s.take(j + 1).last() == s[j]);
        lemma_total_prefix_le(s, j + 1);
    }
}

/// Durations are non-negative, so the total is.
proof fn lemma_total_nonneg(s: Seq<ClipView>)
    ensures
        s.len() == 0 ==> total_duration_ms(s) == 0,
        (forall|i: int| 0 <= i < s.len() ==> clip_wf(#[trigger] s[i])) ==> total_duration_ms(s)
            >= s.len(),
    decreases s.len(),
{
    if s.len() > 0 {
        assert(forall|i: int|
            0 <= i < s.drop_last().len() ==> s.drop_last()[i] == s[i]);
        lemma_total_nonneg(s.drop_last());
    }
}

/// A window value stays within the first 90% of the bar.
proof fn lemma_window_bound(total: int, x: int)
    requires
        0 < total,
        0 <= x <= total,
    ensures
        0 <= x * 90 / total <= 90,
{
    assert(0 * 90 <= x * 90 <= total * 90) by (nonlinear_arith)
        requires
            0 <= x <= total,
    ;
    lemma_div_is_ordered(0, x * 90, total);
    lemma_div_is_ordered(x * 90, total * 90, total);
    lemma_div_multiples_vanish(90, total);
    assert(total * 90 == 90 * total) by (nonlinear_arith);
}

/// Scaled shares of the bar never overlap: a phase's window ends at or
/// before the next phase's offset, and within the first 90%.
pub proof fn lemma_window_step(total: int, completed: int, d: int)
    requires
        0 < total,
        0 <= completed,
        0 <= d,
        completed + d <= total,
    ensures
        window_offset(total, completed) + window_range(total, d) <= window_offset(
            total,
            completed + d,
        ),
        window_offset(total, completed) + window_range(total, d) <= 90,
{
    let a = completed * 90;
    let b = d * 90;
    let qa = a / total;
    let qb = b / total;
    lemma_fundamental_div_mod(a, total);
    lemma_fundamental_div_mod(b, total);
    lemma_mod_bound(a, total);
    lemma_mod_bound(b, total);
    assert((completed + d) * 90 == a + b);
    assert(a + b == total * (qa + qb) + (a % total + b % total)) by (nonlinear_arith)
        requires
            a == total * qa + a % total,
            b == total * qb + b % total,
    ;
    assert(total * (qa + qb) <= a + b);
    lemma_div_is_ordered(total * (qa + qb), a + b, total);
    lemma_div_multiples_vanish(qa + qb, total);
    lemma_window_bound(total, completed + d);
}

/// Consecutive emitted percentages never decrease across a phase
/// boundary: everything a phase can emit is at most the next phase's
/// offset, which is the least the next phase can emit.
pub proof fn lemma_phase_handoff_monotone(
    offset1: u32,
    range1: u32,
    p1: int,
    offset2: u32,
    range2: u32,
    p2: int,
)
    requires
        0 <= p1 <= 100,
        0 <= p2 <= 100,
        offset1 + range1 <= offset2,
        offset2 <= 100,
    ensures
        overall_progress(offset1, range1, p1) <= overall_progress(offset2, range2, p2),
{
    crate::progress::lemma_overall_bounds(offset1, range1, p1);
    crate::progress::lemma_overall_bounds(offset2, range2, p2);
}

/// The windows of a planned multi-clip job are ordered and bounded: each
/// clip phase's window ends no later than the next one's offset, every
/// clip window lies within the first 90% of the bar, and the concat
/// phase owns the remainder.
pub proof fn lemma_plan_windows(cv: Seq<ClipView>, w: u32, h: u32, dir: Seq<char>, job: u64)
    requires
        cv.len() >= 1,
        forall|i: int| 0 <= i < cv.len() ==> clip_wf(#[trigger] cv[i]),
    ensures
        forall|i: int|
            0 <= i < cv.len() ==> (#[trigger] spec_multi_phase(cv, i, w, h, dir, job)).progress_offset
                + spec_multi_phase(cv, i, w, h, dir, job).progress_range <= 90,
        forall|i: int|
            0 <= i && i + 1 < cv.len() ==> (#[trigger] spec_multi_phase(cv, i, w, h, dir, job)).progress_offset
                + spec_multi_phase(cv, i, w, h, dir, job).progress_range <= spec_multi_phase(
                cv,
                i + 1,
                w,
                h,
                dir,
                job,
            ).progress_offset,
{
    let total = total_duration_ms(cv);
    lemma_total_nonneg(cv);
    assert forall|i: int| 0 <= i < cv.len() implies (#[trigger] spec_multi_phase(
        cv,
        i,
        w,
        h,
        dir,
        job,
    )).progress_offset + spec_multi_phase(cv, i, w, h, dir, job).progress_range <= 90 by {
        lemma_total_prefix_le(cv, i);
        lemma_total_prefix_le(cv, i + 1);
        let completed = total_duration_ms(cv.take(i));
        let d = clip_duration_ms(cv[i]);
        lemma_window_step(total, completed, d);
        lemma_window_bound(total, completed);
        lemma_window_bound(total, d);
    }
    assert forall|i: int| 0 <= i && i + 1 < cv.len() implies (#[trigger] spec_multi_phase(
        cv,
        i,
        w,
        h,
        dir,
        job,
    )).progress_offset + spec_multi_phase(cv, i, w, h, dir, job).progress_range
        <= spec_multi_phase(cv, i + 1, w, h, dir, job).progress_offset by {
        lemma_total_prefix_le(cv, i);
        lemma_total_prefix_le(cv, i + 1);
        let completed = total_duration_ms(cv.take(i));
        let d = clip_duration_ms(cv[i]);
        lemma_window_step(total, completed, d);
        lemma_window_bound(total, completed);
        lemma_window_bound(total, d);
        lemma_window_bound(total, completed + d);
    }
}

/// Build the scratch render path for clip `i` of job `job`.
fn scratch_path(dir: &str, job: u64, i: u64) -> (r: String)
    ensures
        r@ == scratch_clip_path(dir@, job, i as int),
{
    let mut s = String::from_str(dir);
    s.append("/export_");
    let j = u64_to_string(job);
    s.append(j.as_str());
    s.append("_clip_");
    let n = u64_to_string(i);
    s.append(n.as_str());
    s.append(".mp4");
    proof {
        assert(s@ =~= scratch_clip_path(dir@, job, i as int));
    }
    s
}

/// Build the concat list path for job `job`.
fn list_path(dir: &str, job: u64) -> (r: String)
    ensures
        r@ == scratch_list_path(dir@, job),
{
    let mut s = String::from_str(dir);
    s.append("/export_");
    let j = u64_to_string(job);
    s.append(j.as_str());
    s.append("_concat.txt");
    proof {
        assert(s@ =~= scratch_list_path(dir@, job));
    }
    s
}

/// Plan an export job. The clips must be validated and well-formed; the
/// total duration must fit the millisecond counter. The plan is a pure
/// function of the request: the phases' argument lists, scratch names,
/// concat list contents and progress windows are all pinned down
/// exactly.
pub fn plan_export(
    clips: &Vec<ClipSpec>,
    width: u32,
    height: u32,
    output_path: &str,
    scratch_dir: &str,
    job_id: u64,
) -> (r: ExportPlan)
    requires
        clips@.len() >= 1,
        forall|i: int| 0 <= i < clips@.len() ==> clip_wf(#[trigger] clips@[i]@),
        total_duration_ms(clip_views(clips@)) <= u64::MAX,
    ensures
        ({
            let cv = clip_views(clips@);
            &&& r.output_path@ == output_path@
            &&& r.clip_phases@.len() == cv.len()
            &&& (cv.len() == 1 ==> {
                &&& r.clip_phases@[0]@ == spec_single_phase(cv[0], width, height, output_path@)
                &&& r.concat_list_path is None
                &&& r.concat_list_content is None
                &&& r.concat_phase is None
            })
            &&& (cv.len() > 1 ==> {
                &&& (forall|i: int|
                    0 <= i < cv.len() ==> (#[trigger] r.clip_phases@[i])@ == spec_multi_phase(
                        cv,
                        i,
                        width,
                        height,
                        scratch_dir@,
                        job_id,
                    ))
                &&& r.concat_list_path matches Some(p) && p@ == scratch_list_path(
                    scratch_dir@,
                    job_id,
                )
                &&& r.concat_list_content matches Some(c) && c@ == concat_content(
                    spec_scratch_paths(cv.len() as int, scratch_dir@, job_id),
                )
                &&& r.concat_phase matches Some(ph) && ph@ == spec_concat_phase(
                    cv,
                    output_path@,
                    scratch_dir@,
                    job_id,
                )
            })
        }),
{
    let ghost cv = clip_views(clips@);
    let n = clips.len();
    if n == 1 {
        let c = &clips[0];
        let duration = c.trim_end_ms - c.trim_start_ms;
        let mut b = FfmpegBuilder::new()
            .input(c.path.as_str())
            .trim(c.trim_start_ms, duration)
            .scale_with_pad(width, height)
            .encode()
            .with_progress();
        if c.muted {
            b = b.mute();
        } else if c.volume.is_some() {
            b = b.volume(*c.volume.as_ref().unwrap());
        }
        let b = b.output(output_path);
        proof {
            assert(cv[0] == clips@[0]@);
            assert(b@ =~= clip_builder(cv[0], width, height, output_path@));
        }
        let phase = ExportPhase {
            args: b.build_args(),
            duration_ms: duration,
            progress_offset: 0,
            progress_range: 100,
            output_path: String::from_str(output_path),
        };
        proof {
            assert(phase@ =~= spec_single_phase(cv[0], width, height, output_path@));
        }
        let mut phases: Vec<ExportPhase> = Vec::new();
        phases.push(phase);
        return ExportPlan {
            clip_phases: phases,
            concat_list_path: None,
            concat_list_content: None,
            concat_phase: None,
            output_path: String::from_str(output_path),
        };
    }
    // Total duration, for the progress windows.
    let mut total: u64 = 0;
    let mut i: usize = 0;
    while i < n
        invariant
            n == clips@.len(),
            cv == clip_views(clips@),
            0 <= i <= n,
            forall|k: int| 0 <= k < n ==> clip_wf(#[trigger] clips@[k]@),
            total_duration_ms(cv) <= u64::MAX,
            total as int == total_duration_ms(cv.take(i as int)),
        decreases n - i,
    {
        let c = &clips[i];
        proof {
            lemma_total_prefix_le(cv, i as int);
            lemma_total_prefix_le(cv, i as int + 1);
            assert(cv[i as int] == clips@[i as int]@);
        }
        total = total + (c.trim_end_ms - c.trim_start_ms);
        i = i + 1;
    }
    proof {
        assert(cv.take(n as int) =~= cv);
        lemma_total_nonneg(cv);
    }
    // Per-clip phases, each rendering into its scratch file.
    let mut phases: Vec<ExportPhase> = Vec::new();
    let mut scratch: Vec<String> = Vec::new();
    let mut completed: u64 = 0;
    let mut i: usize = 0;
    while i < n
        invariant
            n == clips@.len(),
            n >= 2,
            cv == clip_views(clips@),
            0 <= i <= n,
            forall|k: int| 0 <= k < n ==> clip_wf(#[trigger] clips@[k]@),
            total as int == total_duration_ms(cv),
            1 <= total,
            total_duration_ms(cv) <= u64::MAX,
            completed as int == total_duration_ms(cv.take(i as int)),
            phases@.len() == i,
            scratch@.len() == i,
            forall|k: int|
                0 <= k < i ==> (#[trigger] phases@[k])@ == spec_multi_phase(
                    cv,
                    k,
                    width,
                    height,
                    scratch_dir@,
                    job_id,
                ),
            forall|k: int|
                0 <= k < i ==> (#[trigger] scratch@[k])@ == scratch_clip_path(
                    scratch_dir@,
                    job_id,
                    k,
                ),
        decreases n - i,
    {
        let c = &clips[i];
        let duration = c.trim_end_ms - c.trim_start_ms;
        proof {
            lemma_total_prefix_le(cv, i as int);
            lemma_total_prefix_le(cv, i as int + 1);
            assert(cv[i as int] == clips@[i as int]@);
            lemma_window_bound(total as int, completed as int);
            lemma_window_bound(total as int, duration as int);
        }
        let offset = ((completed as u128) * 90 / (total as u128)) as u32;
        let range = ((duration as u128) * 90 / (total as u128)) as u32;
        let out = scratch_path(scratch_dir, job_id, i as u64);
        let mut b = FfmpegBuilder::new()
            .input(c.path.as_str())
            .trim(c.trim_start_ms, duration)
            .scale_with_pad(width, height)
            .encode()
            .with_progress();
        if c.muted {
            b = b.mute();
        } else if c.volume.is_some() {
            b = b.volume(*c.volume.as_ref().unwrap());
        }
        let b = b.output(out.as_str());
        proof {
            assert(b@ =~= clip_builder(cv[i as int], width, height, out@));
        }
        let phase = ExportPhase {
            args: b.build_args(),
            duration_ms: duration,
            progress_offset: offset,
            progress_range: range,
            output_path: out.clone(),
        };
        proof {
            assert(phase@ =~= spec_multi_phase(cv, i as int, width, height, scratch_dir@, job_id));
        }
        phases.push(phase);
        scratch.push(out);
        completed = completed + duration;
        i = i + 1;
    }
    // The concat list naming every scratch render, in order.
    let mut content = String::new();
    let mut i: usize = 0;
    while i < n
        invariant
            n == scratch@.len(),
            forall|k: int|
                0 <= k < n ==> (#[trigger] scratch@[k])@ == scratch_clip_path(
                    scratch_dir@,
                    job_id,
                    k,
                ),
            0 <= i <= n,
            content@ == concat_content(spec_scratch_paths(i as int, scratch_dir@, job_id)),
        decreases n - i,
    {
        content.append("file '");
        content.append(scratch[i].as_str());
        content.append("'\n");
        proof {
            let paths = spec_scratch_paths(i as int + 1, scratch_dir@, job_id);
            assert(paths.drop_last() =~= spec_scratch_paths(i as int, scratch_dir@, job_id));
            assert(content@ =~= concat_content(paths));
        }
        i = i + 1;
    }
    let lp = list_path(scratch_dir, job_id);
    let cb = FfmpegBuilder::new()
        .concat(lp.as_str())
        .stream_copy()
        .with_progress()
        .output(output_path);
    proof {
        assert(cb@ =~= concat_builder(scratch_list_path(scratch_dir@, job_id), output_path@));
    }
    let concat_phase = ExportPhase {
        args: cb.build_args(),
        duration_ms: total / 10,
        progress_offset: 90,
        progress_range: 10,
        output_path: String::from_str(output_path),
    };
    proof {
        assert(concat_phase@ =~= spec_concat_phase(cv, output_path@, scratch_dir@, job_id));
    }
    ExportPlan {
        clip_phases: phases,
        concat_list_path: Some(lp),
        concat_list_content: Some(content),
        concat_phase: Some(concat_phase),
        output_path: String::from_str(output_path),
    }
}

/// The invocation that extracts a clip's audio track as a mono 16 kHz
/// stream at 128k, ready for speech processing: no video, fixed rate and
/// channel count, overwrite the target.
pub open spec fn spec_audio_extract_args(video: Seq<char>, audio: Seq<char>) -> Seq<Seq<char>> {
    seq![
        "-i"@,
        video,
        "-vn"@,
        "-ar"@,
        "16000"@,
        "-ac"@,
        "1"@,
        "-b:a"@,
        "128k"@,
        "-y"@,
        audio,
    ]
}

/// Build the audio-extraction argument list for a clip.
pub fn audio_extract_args(video_path: &str, audio_path: &str) -> (r: Vec<String>)
    ensures
        r.deep_view() == spec_audio_extract_args(video_path@, audio_path@),
{
    let mut v: Vec<String> = Vec::new();
    push_tok(&mut v, "-i");
    push_string(&mut v, String::from_str(video_path));
    push_tok(&mut v, "-vn");
    push_tok(&mut v, "-ar");
    push_tok(&mut v, "16000");
    push_tok(&mut v, "-ac");
    push_tok(&mut v, "1");
    push_tok(&mut v, "-b:a");
    push_tok(&mut v, "128k");
    push_tok(&mut v, "-y");
    push_string(&mut v, String::from_str(audio_path));
    proof {
        assert(v.deep_view() =~= spec_audio_extract_args(video_path@, audio_path@));
    }
    v
}

} // verus!
