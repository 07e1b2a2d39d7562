//! Argument assembly: the fixed token order of one transcoder invocation,
//! given as a mathematical sequence of tokens per builder state, and the
//! executable `build_args` that produces exactly that sequence.
//!
//! Token order: concat block (which suppresses seek, input and video
//! filter processing), seek flags, input flags, video filter, audio
//! filter, codec flags, single-frame flag, progress flag, and the
//! overwrite-plus-output pair last.

use vstd::prelude::*;

use crate::builder::{BuilderSpec, FfmpegBuilder};
use crate::filter::{af_chain, has_audio_filter, vf_chain};
use crate::numfmt::{dec_str, millis_str, millis_to_string, u32_to_string};

verus! {

/// Concat-demuxer input block.
pub open spec fn seg_concat(s: BuilderSpec) -> Seq<Seq<char>> {
    seq!["-f"@, "concat"@, "-safe"@, "0"@, "-i"@, s.concat_list->0]
}

/// Seek and duration flags, placed before the input for efficient
/// seeking; a single-frame extraction position takes precedence over the
/// trim start.
pub open spec fn seg_seek(s: BuilderSpec) -> Seq<Seq<char>> {
    (if s.thumbnail_ms is Some {
        seq!["-ss"@, millis_str(s.thumbnail_ms->0 as nat)]
    } else if s.trim_start_ms is Some {
        seq!["-ss"@, millis_str(s.trim_start_ms->0 as nat)]
    } else {
        Seq::empty()
    }) + (if s.trim_duration_ms is Some {
        seq!["-t"@, millis_str(s.trim_duration_ms->0 as nat)]
    } else {
        Seq::empty()
    })
}

/// Input flags: a raw-frame input block (defaulting to the standard input
/// pipe when no path is set), or a plain input path.
pub open spec fn seg_input(s: BuilderSpec) -> Seq<Seq<char>> {
    if s.raw_input is Some {
        let r = s.raw_input->0;
        seq![
            "-f"@,
            "rawvideo"@,
            "-pixel_format"@,
            r.pixel_format,
            "-video_size"@,
            r.video_size,
            "-framerate"@,
            dec_str(r.framerate as nat),
            "-i"@,
            if s.input is Some {
                s.input->0
            } else {
                "pipe:0"@
            },
        ]
    } else if s.input is Some {
        seq!["-i"@, s.input->0]
    } else {
        Seq::empty()
    }
}

/// Video filter flag, present only for a non-empty chain.
pub open spec fn seg_vf(s: BuilderSpec) -> Seq<Seq<char>> {
    if vf_chain(s).len() > 0 {
        seq!["-vf"@, vf_chain(s)]
    } else {
        Seq::empty()
    }
}

/// Audio filter flag, present only when mute or a volume factor is set.
pub open spec fn seg_af(s: BuilderSpec) -> Seq<Seq<char>> {
    if has_audio_filter(s) {
        seq!["-af"@, af_chain(s)]
    } else {
        Seq::empty()
    }
}

/// Codec flags. Stream copy normally copies both streams; when an audio
/// filter is set, copying and filtering are incompatible, so the video
/// stream is still copied while audio is forced to a real encoder. Without
/// stream copy, each configured encode option is emitted in a fixed order.
pub open spec fn seg_codec(s: BuilderSpec) -> Seq<Seq<char>> {
    if s.stream_copy {
        if has_audio_filter(s) {
            seq!["-c:v"@, "copy"@, "-c:a"@, "aac"@, "-avoid_negative_ts"@, "make_zero"@]
        } else {
            seq!["-c"@, "copy"@, "-avoid_negative_ts"@, "make_zero"@]
        }
    } else {
        (if s.video_codec is Some {
            seq!["-c:v"@, s.video_codec->0]
        } else {
            Seq::empty()
        }) + (if s.preset is Some {
            seq!["-preset"@, s.preset->0]
        } else {
            Seq::empty()
        }) + (if s.crf is Some {
            seq!["-crf"@, dec_str(s.crf->0 as nat)]
        } else {
            Seq::empty()
        }) + (if s.pixel_format is Some {
            seq!["-pix_fmt"@, s.pixel_format->0]
        } else {
            Seq::empty()
        }) + (if s.audio_codec is Some {
            seq!["-c:a"@, s.audio_codec->0]
        } else {
            Seq::empty()
        }) + (if s.audio_bitrate is Some {
            seq!["-b:a"@, s.audio_bitrate->0]
        } else {
            Seq::empty()
        })
    }
}

/// Single-frame extraction flag.
pub open spec fn seg_thumb(s: BuilderSpec) -> Seq<Seq<char>> {
    if s.thumbnail_ms is Some {
        seq!["-vframes"@, "1"@]
    } else {
        Seq::empty()
    }
}

/// Machine-readable progress reporting on the error stream.
pub open spec fn seg_progress(s: BuilderSpec) -> Seq<Seq<char>> {
    if s.progress_enabled {
        seq!["-progress"@, "pipe:2"@]
    } else {
        Seq::empty()
    }
}

/// Overwrite flag and output path, always last.
pub open spec fn seg_output(s: BuilderSpec) -> Seq<Seq<char>> {
    if s.output is Some {
        seq!["-y"@, s.output->0]
    } else {
        Seq::empty()
    }
}

/// The whole argument list for a builder state. A concat input replaces
/// the seek, input and filter sections, the audio filter included: its
/// sources are pre-normalized. The codec flags from there on apply to
/// both shapes, the stream-copy downgrade still keyed on the requested
/// audio filter.
pub open spec fn spec_build_args(s: BuilderSpec) -> Seq<Seq<char>> {
    (if s.concat_list is Some {
        seg_concat(s)
    } else {
        seg_seek(s) + seg_input(s) + seg_vf(s) + seg_af(s)
    }) + seg_codec(s) + seg_thumb(s) + seg_progress(s) + seg_output(s)
}

/// Push a literal token.
pub(crate) fn push_tok(v: &mut Vec<String>, t: &str)
    ensures
        final(v).deep_view() == old(v).deep_view().push(t@),
{
    v.push(String::from_str(t));
    proof {
        assert(v.deep_view() =~= old(v).deep_view().push(t@));
    }
}

/// Push an owned token.
pub(crate) fn push_string(v: &mut Vec<String>, t: String)
    ensures
        final(v).deep_view() == old(v).deep_view().push(t@),
{
    v.push(t);
    proof {
        assert(v.deep_view() =~= old(v).deep_view().push(t@));
    }
}

impl FfmpegBuilder {
    /// The seek and duration tokens for this state.
    fn seek_args(&self) -> (v: Vec<String>)
        ensures
            v.deep_view() == seg_seek(self@),
    {
        let mut v: Vec<String> = Vec::new();
        if self.thumbnail_ms.is_some() {
            push_tok(&mut v, "-ss");
            push_string(&mut v, millis_to_string(*self.thumbnail_ms.as_ref().unwrap()));
        } else if self.trim_start_ms.is_some() {
            push_tok(&mut v, "-ss");
            push_string(&mut v, millis_to_string(*self.trim_start_ms.as_ref().unwrap()));
        }
        if self.trim_duration_ms.is_some() {
            push_tok(&mut v, "-t");
            push_string(&mut v, millis_to_string(*self.trim_duration_ms.as_ref().unwrap()));
        }
        proof {
            assert(v.deep_view() =~= seg_seek(self@));
        }
        v
    }

    /// The input tokens for this state.
    fn input_args(&self) -> (v: Vec<String>)
        ensures
            v.deep_view() == seg_input(self@),
    {
        let mut v: Vec<String> = Vec::new();
        match &self.raw_input {
            Some(raw) => {
                push_tok(&mut v, "-f");
                push_tok(&mut v, "rawvideo");
                push_tok(&mut v, "-pixel_format");
                push_string(&mut v, raw.pixel_format.clone());
                push_tok(&mut v, "-video_size");
                push_string(&mut v, raw.video_size.clone());
                push_tok(&mut v, "-framerate");
                push_string(&mut v, u32_to_string(raw.framerate));
                push_tok(&mut v, "-i");
                match &self.input {
                    Some(input) => push_string(&mut v, input.clone()),
                    None => push_tok(&mut v, "pipe:0"),
                }
            },
            None => {
                match &self.input {
                    Some(input) => {
                        push_tok(&mut v, "-i");
                        push_string(&mut v, input.clone());
                    },
                    None => {},
                }
            },
        }
        proof {
            assert(v.deep_view() =~= seg_input(self@));
        }
        v
    }

    /// The codec tokens for this state.
    fn codec_args(&self) -> (v: Vec<String>)
        ensures
            v.deep_view() == seg_codec(self@),
    {
        let mut v: Vec<String> = Vec::new();
        let has_af = self.muted || self.volume.is_some();
        if self.stream_copy {
            if has_af {
                push_tok(&mut v, "-c:v");
                push_tok(&mut v, "copy");
                push_tok(&mut v, "-c:a");
                push_tok(&mut v, "aac");
                push_tok(&mut v, "-avoid_negative_ts");
                push_tok(&mut v, "make_zero");
            } else {
                push_tok(&mut v, "-c");
                push_tok(&mut v, "copy");
                push_tok(&mut v, "-avoid_negative_ts");
                push_tok(&mut v, "make_zero");
            }
        } else {
            if let Some(codec) = &self.video_codec {
                push_tok(&mut v, "-c:v");
                push_string(&mut v, codec.clone());
            }
            if let Some(preset) = &self.preset {
                push_tok(&mut v, "-preset");
                push_string(&mut v, preset.clone());
            }
            if self.crf.is_some() {
                push_tok(&mut v, "-crf");
                push_string(&mut v, u32_to_string(*self.crf.as_ref().unwrap()));
            }
            if let Some(format) = &self.pixel_format {
                push_tok(&mut v, "-pix_fmt");
                push_string(&mut v, format.clone());
            }
            if let Some(codec) = &self.audio_codec {
                push_tok(&mut v, "-c:a");
                push_string(&mut v, codec.clone());
            }
            if let Some(bitrate) = &self.audio_bitrate {
                push_tok(&mut v, "-b:a");
                push_string(&mut v, bitrate.clone());
            }
        }
        proof {
            assert(v.deep_view() =~= seg_codec(self@));
        }
        v
    }

    /// Assemble the whole argument list for this state. The list fully
    /// determines the external process's behavior and is a pure function
    /// of the accumulated state: two calls on the same state yield the
    /// same list.
    #[verifier::rlimit(60)]
    pub fn build_args(&self) -> (args: Vec<String>)
        ensures
            args.deep_view() == spec_build_args(self@),
    {
        let mut args: Vec<String> = Vec::new();
        if let Some(concat_path) = &self.concat_list {
            push_tok(&mut args, "-f");
            push_tok(&mut args, "concat");
            push_tok(&mut args, "-safe");
            push_tok(&mut args, "0");
            push_tok(&mut args, "-i");
            push_string(&mut args, concat_path.clone());
            proof {
                assert(args.deep_view() =~= seg_concat(self@));
            }
        } else {
            let mut seek = self.seek_args();
            args.append(&mut seek);
            let mut input = self.input_args();
            args.append(&mut input);
            let vf = self.video_filter_chain();
            if !vf.as_str().is_empty() {
                push_tok(&mut args, "-vf");
                push_string(&mut args, vf);
            }
            if self.muted || self.volume.is_some() {
                let af = self.audio_filter_chain();
                push_tok(&mut args, "-af");
                push_string(&mut args, af);
            }
            proof {
                assert(args.deep_view() =~= seg_seek(self@) + seg_input(self@) + seg_vf(self@)
                    + seg_af(self@));
            }
        }
        let ghost head = args.deep_view();
        let mut codec = self.codec_args();
        args.append(&mut codec);
        proof {
            assert(args.deep_view() =~= head + seg_codec(self@));
        }
        let ghost mid = args.deep_view();
        if self.thumbnail_ms.is_some() {
            push_tok(&mut args, "-vframes");
            push_tok(&mut args, "1");
        }
        if self.progress_enabled {
            push_tok(&mut args, "-progress");
            push_tok(&mut args, "pipe:2");
        }
        proof {
            assert(args.deep_view() =~= mid + seg_thumb(self@) + seg_progress(self@));
        }
        if let Some(output) = &self.output {
            push_tok(&mut args, "-y");
            push_string(&mut args, output.clone());
        }
        proof {
            assert(args.deep_view() =~= spec_build_args(self@));
        }
        args
    }
}

} // verus!
