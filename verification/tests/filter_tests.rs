use clipforge::FfmpegBuilder;

fn vf_value(args: &[String]) -> Option<String> {
    let pos = args.iter().position(|s| s == "-vf")?;
    Some(args[pos + 1].clone())
}

fn af_value(args: &[String]) -> Option<String> {
    let pos = args.iter().position(|s| s == "-af")?;
    Some(args[pos + 1].clone())
}

#[test]
fn scale_crop_emits_single_fused_chain() {
    let args = FfmpegBuilder::new()
        .input("in.mp4")
        .scale_crop(320, 180)
        .output("out.jpg")
        .build_args();

    assert_eq!(args.iter().filter(|s| *s == "-vf").count(), 1);
    let vf = vf_value(&args).unwrap();
    assert_eq!(
        vf,
        "scale=320:180:force_original_aspect_ratio=increase,crop=320:180:(iw-320)/2:(ih-180)/2"
    );
    assert!(vf.contains("force_original_aspect_ratio=increase"));
    assert!(vf.contains("crop="));
}

#[test]
fn scale_with_pad_emits_pad_chain() {
    let args = FfmpegBuilder::new()
        .input("in.mp4")
        .scale_with_pad(1280, 720)
        .output("out.mp4")
        .build_args();

    assert_eq!(
        vf_value(&args).unwrap(),
        "scale=1280:720:force_original_aspect_ratio=decrease,pad=1280:720:(ow-iw)/2:(oh-ih)/2:black"
    );
}

#[test]
fn plain_scale_with_height() {
    let args = FfmpegBuilder::new()
        .input("in.mp4")
        .scale(640, Some(480))
        .output("out.mp4")
        .build_args();
    assert_eq!(vf_value(&args).unwrap(), "scale=640:480");
}

#[test]
fn plain_scale_without_height_keeps_even() {
    let args = FfmpegBuilder::new().input("in.mp4").scale(320, None).output("o.mp4").build_args();
    assert_eq!(vf_value(&args).unwrap(), "scale=320:trunc(ih/2)*2");
}

#[test]
fn scale_even_marker() {
    let args = FfmpegBuilder::new().input("in.mp4").scale_even().output("o.mp4").build_args();
    assert_eq!(vf_value(&args).unwrap(), "scale=trunc(iw/2)*2:trunc(ih/2)*2");
}

#[test]
fn explicit_crop_with_offsets() {
    let args = FfmpegBuilder::new()
        .input("in.mp4")
        .crop(100, 200, Some(10), Some(20))
        .output("o.mp4")
        .build_args();
    assert_eq!(vf_value(&args).unwrap(), "crop=100:200:10:20");
}

#[test]
fn explicit_crop_centered() {
    let args = FfmpegBuilder::new()
        .input("in.mp4")
        .crop(100, 200, None, None)
        .output("o.mp4")
        .build_args();
    assert_eq!(vf_value(&args).unwrap(), "crop=100:200:(iw-100)/2:(ih-200)/2");
}

#[test]
fn crop_then_scale_joined_by_comma() {
    let args = FfmpegBuilder::new()
        .input("in.mp4")
        .crop(100, 100, None, None)
        .scale(640, Some(480))
        .output("o.mp4")
        .build_args();
    assert_eq!(
        vf_value(&args).unwrap(),
        "crop=100:100:(iw-100)/2:(ih-100)/2,scale=640:480"
    );
}

#[test]
fn mute_emits_zero_volume() {
    let args = FfmpegBuilder::new().input("in.mp4").mute().output("o.mp4").build_args();
    assert_eq!(af_value(&args).unwrap(), "volume=0");
}

#[test]
fn volume_renders_as_unit_fraction() {
    let args = FfmpegBuilder::new().input("in.mp4").volume(50).output("o.mp4").build_args();
    assert_eq!(af_value(&args).unwrap(), "volume=0.5");

    let args = FfmpegBuilder::new().input("in.mp4").volume(33).output("o.mp4").build_args();
    assert_eq!(af_value(&args).unwrap(), "volume=0.33");

    let args = FfmpegBuilder::new().input("in.mp4").volume(100).output("o.mp4").build_args();
    assert_eq!(af_value(&args).unwrap(), "volume=1");

    let args = FfmpegBuilder::new().input("in.mp4").volume(0).output("o.mp4").build_args();
    assert_eq!(af_value(&args).unwrap(), "volume=0");
}

#[test]
fn volume_clamped_to_full() {
    let args = FfmpegBuilder::new().input("in.mp4").volume(250).output("o.mp4").build_args();
    assert_eq!(af_value(&args).unwrap(), "volume=1");
}

#[test]
fn mute_wins_over_volume() {
    let args = FfmpegBuilder::new().input("in.mp4").volume(70).mute().output("o.mp4").build_args();
    assert_eq!(af_value(&args).unwrap(), "volume=0");
}

#[test]
fn stream_copy_with_audio_filter_splits_codecs() {
    let args = FfmpegBuilder::new()
        .input("in.mp4")
        .stream_copy()
        .mute()
        .output("o.mp4")
        .build_args();

    let cv = args.iter().position(|s| s == "-c:v").unwrap();
    assert_eq!(args[cv + 1], "copy");
    let ca = args.iter().position(|s| s == "-c:a").unwrap();
    assert_eq!(args[ca + 1], "aac");
    assert!(!args.contains(&"-c".to_string()));
}

#[test]
fn stream_copy_plain_never_splits_codecs() {
    let args = FfmpegBuilder::new()
        .input("in.mp4")
        .stream_copy()
        .output("o.mp4")
        .build_args();

    let c = args.iter().position(|s| s == "-c").unwrap();
    assert_eq!(args[c + 1], "copy");
    assert!(!args.contains(&"-c:v".to_string()));
    assert!(!args.contains(&"-c:a".to_string()));
}

#[test]
fn trim_tokens_use_canonical_decimals() {
    let args = FfmpegBuilder::new()
        .input("in.mp4")
        .trim(2500, 10050)
        .output("o.mp4")
        .build_args();
    let ss = args.iter().position(|s| s == "-ss").unwrap();
    assert_eq!(args[ss + 1], "2.5");
    let t = args.iter().position(|s| s == "-t").unwrap();
    assert_eq!(args[t + 1], "10.05");

    let args = FfmpegBuilder::new().input("a").trim(5, 1234).output("b").build_args();
    let ss = args.iter().position(|s| s == "-ss").unwrap();
    assert_eq!(args[ss + 1], "0.005");
    let t = args.iter().position(|s| s == "-t").unwrap();
    assert_eq!(args[t + 1], "1.234");
}

#[test]
fn concat_mode_excludes_seek_and_filters() {
    // Whatever was configured before .concat(), the concat invocation
    // never seeks, trims or filters: its sources are pre-normalized.
    let args = FfmpegBuilder::new()
        .input("in.mp4")
        .trim(1000, 5000)
        .scale_crop(320, 180)
        .concat("list.txt")
        .stream_copy()
        .output("o.mp4")
        .build_args();

    assert!(!args.contains(&"-ss".to_string()));
    assert!(!args.contains(&"-t".to_string()));
    assert!(!args.contains(&"-vf".to_string()));
    assert!(!args.contains(&"-af".to_string()));
    assert!(args.contains(&"concat".to_string()));

    // With an audio filter requested, concat mode still emits no -af;
    // the stream-copy downgrade stays keyed on the request, so the
    // codec flags are split all the same.
    let args = FfmpegBuilder::new()
        .mute()
        .concat("list.txt")
        .stream_copy()
        .output("o.mp4")
        .build_args();

    assert!(!args.contains(&"-af".to_string()));
    assert!(!args.contains(&"-vf".to_string()));
    let cv = args.iter().position(|s| s == "-c:v").unwrap();
    assert_eq!(args[cv + 1], "copy");
    let ca = args.iter().position(|s| s == "-c:a").unwrap();
    assert_eq!(args[ca + 1], "aac");
    assert!(!args.contains(&"-c".to_string()));
}

#[test]
fn build_args_is_idempotent() {
    let b = FfmpegBuilder::new()
        .input("in.mp4")
        .trim(1500, 3000)
        .scale_with_pad(1280, 720)
        .encode()
        .volume(40)
        .with_progress()
        .output("o.mp4");
    let first = b.build_args();
    let second = b.build_args();
    assert_eq!(first, second);
}

#[test]
fn token_order_single_clip_encode() {
    let args = FfmpegBuilder::new()
        .input("in.mp4")
        .trim(1000, 5000)
        .scale_with_pad(1280, 720)
        .encode()
        .with_progress()
        .output("out.mp4")
        .build_args();

    assert_eq!(
        args,
        vec![
            "-ss", "1", "-t", "5", "-i", "in.mp4", "-vf",
            "scale=1280:720:force_original_aspect_ratio=decrease,pad=1280:720:(ow-iw)/2:(oh-ih)/2:black",
            "-c:v", "libx264", "-preset", "medium", "-crf", "23", "-c:a", "aac", "-b:a", "128k",
            "-progress", "pipe:2", "-y", "out.mp4",
        ]
        .into_iter()
        .map(String::from)
        .collect::<Vec<String>>()
    );
}
