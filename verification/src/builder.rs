//! The command spec builder: a fluent accumulator of transform and I/O
//! options for one transcoder invocation. Times are millisecond counts and
//! volume factors are percentages, so that every option is a plain value;
//! the argument list itself is assembled by `build_args`, a pure function
//! of the accumulated state.

use vstd::prelude::*;

verus! {

/// Raw (headerless) video input description: pixel format, frame size as
/// "WIDTHxHEIGHT" text, and frame rate.
#[derive(Clone)]
pub struct RawInputConfig {
    pub pixel_format: String,
    pub video_size: String,
    pub framerate: u32,
}

/// Mathematical model of a raw input description.
pub ghost struct RawInputSpec {
    pub pixel_format: Seq<char>,
    pub video_size: Seq<char>,
    pub framerate: u32,
}

impl View for RawInputConfig {
    type V = RawInputSpec;

    open spec fn view(&self) -> RawInputSpec {
        RawInputSpec {
            pixel_format: self.pixel_format@,
            video_size: self.video_size@,
            framerate: self.framerate,
        }
    }
}

/// Builder for one transcoder invocation. Each method records an option;
/// no method performs I/O or validation beyond clamping.
pub struct FfmpegBuilder {
    pub input: Option<String>,
    pub output: Option<String>,
    pub trim_start_ms: Option<u64>,
    pub trim_duration_ms: Option<u64>,
    pub scale_width: Option<u32>,
    pub scale_height: Option<u32>,
    pub crop_width: Option<u32>,
    pub crop_height: Option<u32>,
    pub crop_x: Option<u32>,
    pub crop_y: Option<u32>,
    pub video_codec: Option<String>,
    pub audio_codec: Option<String>,
    pub preset: Option<String>,
    pub crf: Option<u32>,
    pub audio_bitrate: Option<String>,
    pub progress_enabled: bool,
    pub thumbnail_ms: Option<u64>,
    pub stream_copy: bool,
    pub raw_input: Option<RawInputConfig>,
    pub concat_list: Option<String>,
    pub pixel_format: Option<String>,
    pub scale_pad: bool,
    pub volume: Option<u32>,
    pub muted: bool,
}

/// Mathematical model of a builder's accumulated state.
#[verifier::ext_equal]
pub ghost struct BuilderSpec {
    pub input: Option<Seq<char>>,
    pub output: Option<Seq<char>>,
    pub trim_start_ms: Option<u64>,
    pub trim_duration_ms: Option<u64>,
    pub scale_width: Option<u32>,
    pub scale_height: Option<u32>,
    pub crop_width: Option<u32>,
    pub crop_height: Option<u32>,
    pub crop_x: Option<u32>,
    pub crop_y: Option<u32>,
    pub video_codec: Option<Seq<char>>,
    pub audio_codec: Option<Seq<char>>,
    pub preset: Option<Seq<char>>,
    pub crf: Option<u32>,
    pub audio_bitrate: Option<Seq<char>>,
    pub progress_enabled: bool,
    pub thumbnail_ms: Option<u64>,
    pub stream_copy: bool,
    pub raw_input: Option<RawInputSpec>,
    pub concat_list: Option<Seq<char>>,
    pub pixel_format: Option<Seq<char>>,
    pub scale_pad: bool,
    pub volume: Option<u32>,
    pub muted: bool,
}

impl View for FfmpegBuilder {
    type V = BuilderSpec;

    open spec fn view(&self) -> BuilderSpec {
        BuilderSpec {
            input: self.input.deep_view(),
            output: self.output.deep_view(),
            trim_start_ms: self.trim_start_ms,
            trim_duration_ms: self.trim_duration_ms,
            scale_width: self.scale_width,
            scale_height: self.scale_height,
            crop_width: self.crop_width,
            crop_height: self.crop_height,
            crop_x: self.crop_x,
            crop_y: self.crop_y,
            video_codec: self.video_codec.deep_view(),
            audio_codec: self.audio_codec.deep_view(),
            preset: self.preset.deep_view(),
            crf: self.crf,
            audio_bitrate: self.audio_bitrate.deep_view(),
            progress_enabled: self.progress_enabled,
            thumbnail_ms: self.thumbnail_ms,
            stream_copy: self.stream_copy,
            raw_input: match self.raw_input {
                Some(r) => Some(r@),
                None => None,
            },
            concat_list: self.concat_list.deep_view(),
            pixel_format: self.pixel_format.deep_view(),
            scale_pad: self.scale_pad,
            volume: self.volume,
            muted: self.muted,
        }
    }
}

/// The state of a freshly created builder: nothing configured.
pub open spec fn empty_builder() -> BuilderSpec {
    BuilderSpec {
        input: None,
        output: None,
        trim_start_ms: None,
        trim_duration_ms: None,
        scale_width: None,
        scale_height: None,
        crop_width: None,
        crop_height: None,
        crop_x: None,
        crop_y: None,
        video_codec: None,
        audio_codec: None,
        preset: None,
        crf: None,
        audio_bitrate: None,
        progress_enabled: false,
        thumbnail_ms: None,
        stream_copy: false,
        raw_input: None,
        concat_list: None,
        pixel_format: None,
        scale_pad: false,
        volume: None,
        muted: false,
    }
}

impl FfmpegBuilder {
    /// Create a builder with nothing configured.
    pub fn new() -> (r: Self)
        ensures
            r@ == empty_builder(),
    {
        FfmpegBuilder {
            input: None,
            output: None,
            trim_start_ms: None,
            trim_duration_ms: None,
            scale_width: None,
            scale_height: None,
            crop_width: None,
            crop_height: None,
            crop_x: None,
            crop_y: None,
            video_codec: None,
            audio_codec: None,
            preset: None,
            crf: None,
            audio_bitrate: None,
            progress_enabled: false,
            thumbnail_ms: None,
            stream_copy: false,
            raw_input: None,
            concat_list: None,
            pixel_format: None,
            scale_pad: false,
            volume: None,
            muted: false,
        }
    }

    /// Set the input file path.
    pub fn input(self, path: &str) -> (r: Self)
        ensures
            r@ == (BuilderSpec { input: Some(path@), ..self@ }),
    {
        FfmpegBuilder { input: Some(String::from_str(path)), ..self }
    }

    /// Set the output file path.
    pub fn output(self, path: &str) -> (r: Self)
        ensures
            r@ == (BuilderSpec { output: Some(path@), ..self@ }),
    {
        FfmpegBuilder { output: Some(String::from_str(path)), ..self }
    }

    /// Set the trim range: start position and duration, in milliseconds.
    pub fn trim(self, start_ms: u64, duration_ms: u64) -> (r: Self)
        ensures
            r@ == (BuilderSpec {
                trim_start_ms: Some(start_ms),
                trim_duration_ms: Some(duration_ms),
                ..self@
            }),
    {
        FfmpegBuilder {
            trim_start_ms: Some(start_ms),
            trim_duration_ms: Some(duration_ms),
            ..self
        }
    }

    /// Set plain scaling to the given width, and height if given.
    pub fn scale(self, width: u32, height: Option<u32>) -> (r: Self)
        ensures
            r@ == (BuilderSpec { scale_width: Some(width), scale_height: height, ..self@ }),
    {
        FfmpegBuilder { scale_width: Some(width), scale_height: height, ..self }
    }

    /// Scale preserving aspect ratio, padding the remainder with black bars.
    pub fn scale_with_pad(self, width: u32, height: u32) -> (r: Self)
        ensures
            r@ == (BuilderSpec {
                scale_width: Some(width),
                scale_height: Some(height),
                scale_pad: true,
                ..self@
            }),
    {
        FfmpegBuilder {
            scale_width: Some(width),
            scale_height: Some(height),
            scale_pad: true,
            ..self
        }
    }

    /// Scale to cover the target box and crop the overflow from the center:
    /// fills the box without stretching or black bars.
    pub fn scale_crop(self, width: u32, height: u32) -> (r: Self)
        ensures
            r@ == (BuilderSpec {
                scale_width: Some(width),
                scale_height: Some(height),
                scale_pad: false,
                crop_width: Some(width),
                crop_height: Some(height),
                crop_x: None,
                crop_y: None,
                ..self@
            }),
    {
        FfmpegBuilder {
            scale_width: Some(width),
            scale_height: Some(height),
            scale_pad: false,
            crop_width: Some(width),
            crop_height: Some(height),
            crop_x: None,
            crop_y: None,
            ..self
        }
    }

    /// Request even output dimensions (required by common encoders); the
    /// zero width is the marker for this mode.
    pub fn scale_even(self) -> (r: Self)
        ensures
            r@ == (BuilderSpec { scale_width: Some(0u32), scale_height: None, ..self@ }),
    {
        FfmpegBuilder { scale_width: Some(0), scale_height: None, ..self }
    }

    /// Set cropping to the given size; without offsets the crop is centered.
    pub fn crop(self, width: u32, height: u32, x: Option<u32>, y: Option<u32>) -> (r: Self)
        ensures
            r@ == (BuilderSpec {
                crop_width: Some(width),
                crop_height: Some(height),
                crop_x: x,
                crop_y: y,
                ..self@
            }),
    {
        FfmpegBuilder { crop_width: Some(width), crop_height: Some(height), crop_x: x, crop_y: y, ..self }
    }

    /// Select the default encode profile: H.264 video with AAC audio at
    /// medium preset, quality factor 23, 128k audio bitrate.
    pub fn encode(self) -> (r: Self)
        ensures
            r@ == (BuilderSpec {
                video_codec: Some("libx264"@),
                audio_codec: Some("aac"@),
                preset: Some("medium"@),
                crf: Some(23u32),
                audio_bitrate: Some("128k"@),
                ..self@
            }),
    {
        FfmpegBuilder {
            video_codec: Some(String::from_str("libx264")),
            audio_codec: Some(String::from_str("aac")),
            preset: Some(String::from_str("medium")),
            crf: Some(23),
            audio_bitrate: Some(String::from_str("128k")),
            ..self
        }
    }

    /// Override the encoder preset.
    pub fn preset(self, preset: &str) -> (r: Self)
        ensures
            r@ == (BuilderSpec { preset: Some(preset@), ..self@ }),
    {
        FfmpegBuilder { preset: Some(String::from_str(preset)), ..self }
    }

    /// Enable stream copy: re-mux without re-encoding.
    pub fn stream_copy(self) -> (r: Self)
        ensures
            r@ == (BuilderSpec { stream_copy: true, ..self@ }),
    {
        FfmpegBuilder { stream_copy: true, ..self }
    }

    /// Request a single-frame extraction at the given position in
    /// milliseconds.
    pub fn thumbnail(self, time_ms: u64) -> (r: Self)
        ensures
            r@ == (BuilderSpec { thumbnail_ms: Some(time_ms), ..self@ }),
    {
        FfmpegBuilder { thumbnail_ms: Some(time_ms), ..self }
    }

    /// Describe the input as raw headerless video frames.
    pub fn raw_input(self, config: RawInputConfig) -> (r: Self)
        ensures
            r@ == (BuilderSpec { raw_input: Some(config@), ..self@ }),
    {
        FfmpegBuilder { raw_input: Some(config), ..self }
    }

    /// Read the input sources from a concat list file.
    pub fn concat(self, list_path: &str) -> (r: Self)
        ensures
            r@ == (BuilderSpec { concat_list: Some(list_path@), ..self@ }),
    {
        FfmpegBuilder { concat_list: Some(String::from_str(list_path)), ..self }
    }

    /// Enable machine-readable progress reporting on the error stream.
    pub fn with_progress(self) -> (r: Self)
        ensures
            r@ == (BuilderSpec { progress_enabled: true, ..self@ }),
    {
        FfmpegBuilder { progress_enabled: true, ..self }
    }

    /// Set the output pixel format.
    pub fn pixel_format(self, format: &str) -> (r: Self)
        ensures
            r@ == (BuilderSpec { pixel_format: Some(format@), ..self@ }),
    {
        FfmpegBuilder { pixel_format: Some(String::from_str(format)), ..self }
    }

    /// Set the audio volume as a percentage of full volume, clamped to
    /// 0..=100.
    pub fn volume(self, vol: u32) -> (r: Self)
        ensures
            r@ == (BuilderSpec {
                volume: Some(if vol > 100 { 100u32 } else { vol }),
                ..self@
            }),
    {
        FfmpegBuilder { volume: Some(if vol > 100 { 100 } else { vol }), ..self }
    }

    /// Mute the audio track entirely.
    pub fn mute(self) -> (r: Self)
        ensures
            r@ == (BuilderSpec { muted: true, ..self@ }),
    {
        FfmpegBuilder { muted: true, ..self }
    }

    /// A builder for probing the transcoder's version; the version probe
    /// runs with a fixed flag and never goes through argument assembly.
    pub fn version_check() -> (r: Self)
        ensures
            r@ == empty_builder(),
    {
        Self::new()
    }
}

impl Default for FfmpegBuilder {
    /// Same as `new`: a builder with nothing configured.
    fn default() -> (r: Self)
        ensures
            r@ == empty_builder(),
    {
        Self::new()
    }
}

} // verus!
