use clipforge::{
    audio_extract_args, plan_export, validate_export, ClipSpec, FFmpegError, ProgressTracker,
    Resolution,
};

fn clip(path: &str, start_ms: u64, end_ms: u64) -> ClipSpec {
    ClipSpec::new(path, start_ms, end_ms, None, false).unwrap()
}

#[test]
fn clip_new_rejects_empty_range() {
    assert!(ClipSpec::new("a.mp4", 5000, 5000, None, false).is_none());
    assert!(ClipSpec::new("a.mp4", 6000, 5000, None, false).is_none());
    assert!(ClipSpec::new("a.mp4", 0, 1, None, false).is_some());
}

#[test]
fn clip_new_clamps_volume() {
    let c = ClipSpec::new("a.mp4", 0, 1000, Some(300), false).unwrap();
    assert_eq!(c.volume, Some(100));
}

#[test]
fn resolution_parse_known_names() {
    assert_eq!(Resolution::parse(b"source"), Some(Resolution::Source));
    assert_eq!(Resolution::parse(b"480p"), Some(Resolution::R480p));
    assert_eq!(Resolution::parse(b"720p"), Some(Resolution::R720p));
    assert_eq!(Resolution::parse(b"1080p"), Some(Resolution::R1080p));
    assert_eq!(Resolution::parse(b"4K"), Some(Resolution::R4K));
    assert_eq!(Resolution::parse(b"4k"), None);
    assert_eq!(Resolution::parse(b"2160p"), None);
    assert_eq!(Resolution::parse(b""), None);
}

#[test]
fn resolution_dimensions() {
    assert_eq!(Resolution::R480p.dimensions(), (854, 480));
    assert_eq!(Resolution::R720p.dimensions(), (1280, 720));
    assert_eq!(Resolution::R1080p.dimensions(), (1920, 1080));
    assert_eq!(Resolution::R4K.dimensions(), (3840, 2160));
    assert_eq!(Resolution::Source.dimensions(), (1280, 720));
}

#[test]
fn validate_rejects_empty_request() {
    let clips: Vec<ClipSpec> = vec![];
    let exists: Vec<bool> = vec![];
    match validate_export(&clips, &exists) {
        Err(FFmpegError::InvalidPath(m)) => assert_eq!(m, "No clips provided for export"),
        _ => panic!("expected an input-validation error"),
    }
}

#[test]
fn validate_names_first_missing_clip() {
    // The job fails before any process is spawned, naming the missing
    // path; no plan (and so no scratch file) is ever produced.
    let clips = vec![clip("a.mp4", 0, 1000), clip("missing.mp4", 0, 1000)];
    let exists = vec![true, false];
    match validate_export(&clips, &exists) {
        Err(FFmpegError::InvalidPath(m)) => assert_eq!(m, "Clip not found: missing.mp4"),
        _ => panic!("expected an input-validation error"),
    }
}

#[test]
fn validate_accepts_complete_request() {
    let clips = vec![clip("a.mp4", 0, 1000)];
    let exists = vec![true];
    assert!(validate_export(&clips, &exists).is_ok());
}

#[test]
fn single_clip_plan_spans_whole_bar() {
    let clips = vec![clip("a.mp4", 1000, 6000)];
    let plan = plan_export(&clips, 1280, 720, "final.mp4", "/tmp/scratch", 7);

    assert_eq!(plan.clip_phases.len(), 1);
    assert!(plan.concat_phase.is_none());
    assert!(plan.concat_list_path.is_none());
    assert!(plan.concat_list_content.is_none());
    let ph = &plan.clip_phases[0];
    assert_eq!(ph.progress_offset, 0);
    assert_eq!(ph.progress_range, 100);
    assert_eq!(ph.duration_ms, 5000);
    assert_eq!(ph.output_path, "final.mp4");
    // The one invocation: trim, pad-scale, encode profile, progress,
    // output straight to the final path.
    assert_eq!(
        ph.args,
        vec![
            "-ss", "1", "-t", "5", "-i", "a.mp4", "-vf",
            "scale=1280:720:force_original_aspect_ratio=decrease,pad=1280:720:(ow-iw)/2:(oh-ih)/2:black",
            "-c:v", "libx264", "-preset", "medium", "-crf", "23", "-c:a", "aac", "-b:a", "128k",
            "-progress", "pipe:2", "-y", "final.mp4",
        ]
        .into_iter()
        .map(String::from)
        .collect::<Vec<String>>()
    );
}

#[test]
fn multi_clip_windows_share_first_ninety_percent() {
    // Three clips of 10 s / 5 s / 5 s: offsets 0, 45, 67 and ranges
    // 45, 22, 22 out of the first 90%, then the concat phase at 90..100.
    let clips = vec![
        clip("a.mp4", 0, 10000),
        clip("b.mp4", 0, 5000),
        clip("c.mp4", 5000, 10000),
    ];
    let plan = plan_export(&clips, 1280, 720, "final.mp4", "/tmp/scratch", 3);

    assert_eq!(plan.clip_phases.len(), 3);
    let windows: Vec<(u32, u32)> = plan
        .clip_phases
        .iter()
        .map(|p| (p.progress_offset, p.progress_range))
        .collect();
    assert_eq!(windows, vec![(0, 45), (45, 22), (67, 22)]);

    let concat = plan.concat_phase.as_ref().unwrap();
    assert_eq!(concat.progress_offset, 90);
    assert_eq!(concat.progress_range, 10);
    assert_eq!(concat.duration_ms, 2000);
    assert_eq!(concat.output_path, "final.mp4");
}

#[test]
fn multi_clip_plan_names_scratch_files_by_job() {
    let clips = vec![clip("a.mp4", 0, 1000), clip("b.mp4", 0, 1000)];
    let plan = plan_export(&clips, 854, 480, "out.mp4", "/work", 42);

    assert_eq!(plan.clip_phases[0].output_path, "/work/export_42_clip_0.mp4");
    assert_eq!(plan.clip_phases[1].output_path, "/work/export_42_clip_1.mp4");
    assert_eq!(plan.concat_list_path.as_deref(), Some("/work/export_42_concat.txt"));
    assert_eq!(
        plan.concat_list_content.as_deref(),
        Some("file '/work/export_42_clip_0.mp4'\nfile '/work/export_42_clip_1.mp4'\n")
    );
    let concat = plan.concat_phase.as_ref().unwrap();
    assert_eq!(
        concat.args,
        vec![
            "-f", "concat", "-safe", "0", "-i", "/work/export_42_concat.txt", "-c", "copy",
            "-avoid_negative_ts", "make_zero", "-progress", "pipe:2", "-y", "out.mp4",
        ]
        .into_iter()
        .map(String::from)
        .collect::<Vec<String>>()
    );
}

#[test]
fn whole_job_progress_is_monotone() {
    // Drive every phase of a three-clip job with its own tracker, feeding
    // steadily advancing progress lines; the emitted overall percentages
    // never decrease across the whole job.
    let clips = vec![
        clip("a.mp4", 0, 10000),
        clip("b.mp4", 0, 5000),
        clip("c.mp4", 0, 5000),
    ];
    let plan = plan_export(&clips, 1280, 720, "final.mp4", "/tmp/s", 1);

    let mut emitted: Vec<u32> = Vec::new();
    let mut clock: u64 = 0;
    let mut phases: Vec<(u32, u32, u64)> = plan
        .clip_phases
        .iter()
        .map(|p| (p.progress_offset, p.progress_range, p.duration_ms))
        .collect();
    let concat = plan.concat_phase.as_ref().unwrap();
    phases.push((concat.progress_offset, concat.progress_range, concat.duration_ms));

    for (offset, range, duration_ms) in phases {
        let mut t = ProgressTracker::new(offset, range, Some(duration_ms), clock);
        for step in 1..=10u64 {
            clock += 150;
            let elapsed_us = duration_ms * step * 100; // tenths of the duration, in us
            let line = format!("out_time_us={}", elapsed_us);
            if let Some(p) = t.on_line(line.as_bytes(), clock) {
                emitted.push(p);
            }
        }
    }
    assert!(!emitted.is_empty());
    assert!(emitted.windows(2).all(|w| w[0] <= w[1]), "not monotone: {:?}", emitted);
    assert_eq!(*emitted.last().unwrap(), 100);
}

#[test]
fn audio_extraction_invocation() {
    let args = audio_extract_args("video.mp4", "audio.mp3");
    assert_eq!(
        args,
        vec![
            "-i", "video.mp4", "-vn", "-ar", "16000", "-ac", "1", "-b:a", "128k", "-y",
            "audio.mp3",
        ]
        .into_iter()
        .map(String::from)
        .collect::<Vec<String>>()
    );
}
