//! Laws of the argument-assembly layer, proved once for every builder
//! state: which codec flags stream copy emits, where the seek tokens
//! stand, what concat mode excludes, and that crop-to-fill yields exactly
//! one fused video filter value.
//!
//! Several laws say that a flag token occurs nowhere else in the list.
//! That can only hold when the caller-supplied text fields (paths, codec
//! names, formats) do not themselves read exactly like flag tokens, so
//! those laws assume the fields are benign: empty or not starting with a
//! dash. Every value the pipeline itself produces (decimal numbers,
//! filter chains) is shown to be benign outright.

use vstd::prelude::*;
use vstd::seq_lib::*;

use crate::args::{
    seg_af, seg_codec, seg_concat, seg_input, seg_output, seg_progress, seg_seek, seg_thumb,
    seg_vf, spec_build_args,
};
use crate::builder::BuilderSpec;
use crate::filter::{
    af_chain, crop_part, has_audio_filter, is_scale_crop, scale_crop_chain, scale_part, vf_chain,
};
use crate::numfmt::{dec_str, is_digit_char, lemma_dec_str_digits, millis_str};

verus! {

/// Text that cannot be mistaken for a flag: empty or not dash-initial.
pub open spec fn benign_text(s: Seq<char>) -> bool {
    s.len() == 0 || s[0] != '-'
}

/// Benign if present.
pub open spec fn benign_opt(o: Option<Seq<char>>) -> bool {
    o is Some ==> benign_text(o->0)
}

/// All caller-supplied text fields of a builder state are benign.
pub open spec fn benign_fields(s: BuilderSpec) -> bool {
    &&& benign_opt(s.input)
    &&& benign_opt(s.output)
    &&& benign_opt(s.video_codec)
    &&& benign_opt(s.audio_codec)
    &&& benign_opt(s.preset)
    &&& benign_opt(s.audio_bitrate)
    &&& benign_opt(s.pixel_format)
    &&& benign_opt(s.concat_list)
    &&& (s.raw_input is Some ==> benign_text(s.raw_input->0.pixel_format) && benign_text(
        s.raw_input->0.video_size,
    ))
}

/// A flag token: non-empty, dash-initial.
pub open spec fn dash_tok(t: Seq<char>) -> bool {
    t.len() > 0 && t[0] == '-'
}

/// A token that neither sequence holds, their concatenation does not hold.
proof fn lemma_no_contains_concat<T>(a: Seq<T>, b: Seq<T>, t: T)
    requires
        !a.contains(t),
        !b.contains(t),
    ensures
        !(a + b).contains(t),
{
    assert forall|i: int| 0 <= i < (a + b).len() implies (a + b)[i] != t by {
        if i < a.len() {
            assert(a[i] == (a + b)[i]);
        } else {
            assert(b[i - a.len()] == (a + b)[i]);
        }
    }
}

/// Benign text never equals a flag token.
proof fn lemma_benign_ne(s: Seq<char>, t: Seq<char>)
    requires
        benign_text(s),
        dash_tok(t),
    ensures
        s != t,
{
    if s == t {
        assert(s.len() == t.len());
        assert(s[0] == t[0]);
    }
}

/// A millisecond rendering begins with a digit.
pub proof fn lemma_millis_str_first(n: nat)
    ensures
        millis_str(n).len() >= 1,
        is_digit_char(millis_str(n)[0]),
{
    lemma_dec_str_digits(n / 1000);
    if n % 1000 != 0 {
        assert(millis_str(n)[0] == dec_str(n / 1000)[0]);
    }
}

/// Rendered numbers are benign: a digit is not a dash.
proof fn lemma_digit_first_ne(s: Seq<char>, t: Seq<char>)
    requires
        s.len() >= 1,
        is_digit_char(s[0]),
        dash_tok(t),
    ensures
        s != t,
{
    if s == t {
        assert(s[0] == t[0]);
    }
}

/// A non-empty video filter chain begins with a clause keyword, never a
/// dash.
pub proof fn lemma_vf_chain_benign(s: BuilderSpec)
    ensures
        benign_text(vf_chain(s)),
{
    reveal_strlit("scale=");
    reveal_strlit("crop=");
    reveal_strlit("scale=trunc(iw/2)*2:trunc(ih/2)*2");
    if is_scale_crop(s) {
        assert(vf_chain(s)[0] == 's');
    } else {
        let c = crop_part(s);
        let sc = scale_part(s);
        if c.len() > 0 {
            assert(c[0] == 'c');
            assert(vf_chain(s)[0] == 'c');
        } else if sc.len() > 0 {
            assert(vf_chain(s) == sc);
            if s.scale_width is Some {
                assert(sc[0] == 's');
            }
        }
    }
}

/// A non-empty audio filter chain begins with its clause keyword.
pub proof fn lemma_af_chain_benign(s: BuilderSpec)
    ensures
        benign_text(af_chain(s)),
{
    reveal_strlit("volume=0");
    reveal_strlit("volume=");
    if s.muted {
        assert(af_chain(s)[0] == 'v');
    } else if s.volume is Some {
        assert(af_chain(s)[0] == 'v');
    }
}

/// The seek flag token, and how it differs from every other flag emitted.
proof fn lemma_tok_ss()
    ensures
        dash_tok("-ss"@),
        "-ss"@ != "-f"@,
        "-ss"@ != "-safe"@,
        "-ss"@ != "-i"@,
        "-ss"@ != "-t"@,
        "-ss"@ != "-pixel_format"@,
        "-ss"@ != "-video_size"@,
        "-ss"@ != "-framerate"@,
        "-ss"@ != "-vf"@,
        "-ss"@ != "-af"@,
        "-ss"@ != "-c"@,
        "-ss"@ != "-c:v"@,
        "-ss"@ != "-c:a"@,
        "-ss"@ != "-avoid_negative_ts"@,
        "-ss"@ != "-preset"@,
        "-ss"@ != "-crf"@,
        "-ss"@ != "-pix_fmt"@,
        "-ss"@ != "-b:a"@,
        "-ss"@ != "-vframes"@,
        "-ss"@ != "-progress"@,
        "-ss"@ != "-y"@,
{
    reveal_strlit("-ss");
    reveal_strlit("-f");
    reveal_strlit("-safe");
    reveal_strlit("-i");
    reveal_strlit("-t");
    reveal_strlit("-pixel_format");
    reveal_strlit("-video_size");
    reveal_strlit("-framerate");
    reveal_strlit("-vf");
    reveal_strlit("-af");
    reveal_strlit("-c");
    reveal_strlit("-c:v");
    reveal_strlit("-c:a");
    reveal_strlit("-avoid_negative_ts");
    reveal_strlit("-preset");
    reveal_strlit("-crf");
    reveal_strlit("-pix_fmt");
    reveal_strlit("-b:a");
    reveal_strlit("-vframes");
    reveal_strlit("-progress");
    reveal_strlit("-y");
    assert("-ss"@.len() == 3);
    assert("-f"@.len() == 2);
    assert("-safe"@.len() == 5);
    assert("-i"@.len() == 2);
    assert("-t"@.len() == 2);
    assert("-pixel_format"@.len() == 13);
    assert("-video_size"@.len() == 11);
    assert("-framerate"@.len() == 10);
    assert("-vf"@.len() == 3);
    assert("-af"@.len() == 3);
    assert("-c"@.len() == 2);
    assert("-c:v"@.len() == 4);
    assert("-c:a"@.len() == 4);
    assert("-avoid_negative_ts"@.len() == 18);
    assert("-preset"@.len() == 7);
    assert("-crf"@.len() == 4);
    assert("-pix_fmt"@.len() == 8);
    assert("-b:a"@.len() == 4);
    assert("-vframes"@.len() == 8);
    assert("-progress"@.len() == 9);
    assert("-y"@.len() == 2);
    assert("-ss"@[0] == '-');
    assert("-ss"@[1] == 's');
    assert("-vf"@[1] == 'v');
    assert("-af"@[1] == 'a');
}

/// The duration flag token, and how it differs from every other flag
/// emitted.
proof fn lemma_tok_t()
    ensures
        dash_tok("-t"@),
        "-t"@ != "-f"@,
        "-t"@ != "-safe"@,
        "-t"@ != "-i"@,
        "-t"@ != "-ss"@,
        "-t"@ != "-pixel_format"@,
        "-t"@ != "-video_size"@,
        "-t"@ != "-framerate"@,
        "-t"@ != "-vf"@,
        "-t"@ != "-af"@,
        "-t"@ != "-c"@,
        "-t"@ != "-c:v"@,
        "-t"@ != "-c:a"@,
        "-t"@ != "-avoid_negative_ts"@,
        "-t"@ != "-preset"@,
        "-t"@ != "-crf"@,
        "-t"@ != "-pix_fmt"@,
        "-t"@ != "-b:a"@,
        "-t"@ != "-vframes"@,
        "-t"@ != "-progress"@,
        "-t"@ != "-y"@,
{
    reveal_strlit("-t");
    reveal_strlit("-f");
    reveal_strlit("-safe");
    reveal_strlit("-i");
    reveal_strlit("-ss");
    reveal_strlit("-pixel_format");
    reveal_strlit("-video_size");
    reveal_strlit("-framerate");
    reveal_strlit("-vf");
    reveal_strlit("-af");
    reveal_strlit("-c");
    reveal_strlit("-c:v");
    reveal_strlit("-c:a");
    reveal_strlit("-avoid_negative_ts");
    reveal_strlit("-preset");
    reveal_strlit("-crf");
    reveal_strlit("-pix_fmt");
    reveal_strlit("-b:a");
    reveal_strlit("-vframes");
    reveal_strlit("-progress");
    reveal_strlit("-y");
    assert("-t"@.len() == 2);
    assert("-f"@.len() == 2);
    assert("-safe"@.len() == 5);
    assert("-i"@.len() == 2);
    assert("-ss"@.len() == 3);
    assert("-pixel_format"@.len() == 13);
    assert("-video_size"@.len() == 11);
    assert("-framerate"@.len() == 10);
    assert("-vf"@.len() == 3);
    assert("-af"@.len() == 3);
    assert("-c"@.len() == 2);
    assert("-c:v"@.len() == 4);
    assert("-c:a"@.len() == 4);
    assert("-avoid_negative_ts"@.len() == 18);
    assert("-preset"@.len() == 7);
    assert("-crf"@.len() == 4);
    assert("-pix_fmt"@.len() == 8);
    assert("-b:a"@.len() == 4);
    assert("-vframes"@.len() == 8);
    assert("-progress"@.len() == 9);
    assert("-y"@.len() == 2);
    assert("-t"@[0] == '-');
    assert("-t"@[1] == 't');
    assert("-f"@[1] == 'f');
    assert("-i"@[1] == 'i');
    assert("-c"@[1] == 'c');
    assert("-y"@[1] == 'y');
}

/// The video filter flag token, and how it differs from every other flag
/// emitted.
proof fn lemma_tok_vf()
    ensures
        dash_tok("-vf"@),
        "-vf"@ != "-f"@,
        "-vf"@ != "-safe"@,
        "-vf"@ != "-i"@,
        "-vf"@ != "-ss"@,
        "-vf"@ != "-t"@,
        "-vf"@ != "-pixel_format"@,
        "-vf"@ != "-video_size"@,
        "-vf"@ != "-framerate"@,
        "-vf"@ != "-af"@,
        "-vf"@ != "-c"@,
        "-vf"@ != "-c:v"@,
        "-vf"@ != "-c:a"@,
        "-vf"@ != "-avoid_negative_ts"@,
        "-vf"@ != "-preset"@,
        "-vf"@ != "-crf"@,
        "-vf"@ != "-pix_fmt"@,
        "-vf"@ != "-b:a"@,
        "-vf"@ != "-vframes"@,
        "-vf"@ != "-progress"@,
        "-vf"@ != "-y"@,
{
    reveal_strlit("-vf");
    reveal_strlit("-f");
    reveal_strlit("-safe");
    reveal_strlit("-i");
    reveal_strlit("-ss");
    reveal_strlit("-t");
    reveal_strlit("-pixel_format");
    reveal_strlit("-video_size");
    reveal_strlit("-framerate");
    reveal_strlit("-af");
    reveal_strlit("-c");
    reveal_strlit("-c:v");
    reveal_strlit("-c:a");
    reveal_strlit("-avoid_negative_ts");
    reveal_strlit("-preset");
    reveal_strlit("-crf");
    reveal_strlit("-pix_fmt");
    reveal_strlit("-b:a");
    reveal_strlit("-vframes");
    reveal_strlit("-progress");
    reveal_strlit("-y");
    assert("-vf"@.len() == 3);
    assert("-f"@.len() == 2);
    assert("-safe"@.len() == 5);
    assert("-i"@.len() == 2);
    assert("-ss"@.len() == 3);
    assert("-t"@.len() == 2);
    assert("-pixel_format"@.len() == 13);
    assert("-video_size"@.len() == 11);
    assert("-framerate"@.len() == 10);
    assert("-af"@.len() == 3);
    assert("-c"@.len() == 2);
    assert("-c:v"@.len() == 4);
    assert("-c:a"@.len() == 4);
    assert("-avoid_negative_ts"@.len() == 18);
    assert("-preset"@.len() == 7);
    assert("-crf"@.len() == 4);
    assert("-pix_fmt"@.len() == 8);
    assert("-b:a"@.len() == 4);
    assert("-vframes"@.len() == 8);
    assert("-progress"@.len() == 9);
    assert("-y"@.len() == 2);
    assert("-vf"@[0] == '-');
    assert("-vf"@[1] == 'v');
    assert("-ss"@[1] == 's');
    assert("-af"@[1] == 'a');
}

/// The combined copy flag token, and how it differs from every other flag
/// emitted.
proof fn lemma_tok_c()
    ensures
        dash_tok("-c"@),
        "-c"@ != "-f"@,
        "-c"@ != "-safe"@,
        "-c"@ != "-i"@,
        "-c"@ != "-ss"@,
        "-c"@ != "-t"@,
        "-c"@ != "-pixel_format"@,
        "-c"@ != "-video_size"@,
        "-c"@ != "-framerate"@,
        "-c"@ != "-vf"@,
        "-c"@ != "-af"@,
        "-c"@ != "-c:v"@,
        "-c"@ != "-c:a"@,
        "-c"@ != "-avoid_negative_ts"@,
        "-c"@ != "-vframes"@,
        "-c"@ != "-progress"@,
        "-c"@ != "-y"@,
{
    reveal_strlit("-c");
    reveal_strlit("-f");
    reveal_strlit("-safe");
    reveal_strlit("-i");
    reveal_strlit("-ss");
    reveal_strlit("-t");
    reveal_strlit("-pixel_format");
    reveal_strlit("-video_size");
    reveal_strlit("-framerate");
    reveal_strlit("-vf");
    reveal_strlit("-af");
    reveal_strlit("-c:v");
    reveal_strlit("-c:a");
    reveal_strlit("-avoid_negative_ts");
    reveal_strlit("-vframes");
    reveal_strlit("-progress");
    reveal_strlit("-y");
    assert("-c"@.len() == 2);
    assert("-f"@.len() == 2);
    assert("-safe"@.len() == 5);
    assert("-i"@.len() == 2);
    assert("-ss"@.len() == 3);
    assert("-t"@.len() == 2);
    assert("-pixel_format"@.len() == 13);
    assert("-video_size"@.len() == 11);
    assert("-framerate"@.len() == 10);
    assert("-vf"@.len() == 3);
    assert("-af"@.len() == 3);
    assert("-c:v"@.len() == 4);
    assert("-c:a"@.len() == 4);
    assert("-avoid_negative_ts"@.len() == 18);
    assert("-vframes"@.len() == 8);
    assert("-progress"@.len() == 9);
    assert("-y"@.len() == 2);
    assert("-c"@[0] == '-');
    assert("-c"@[1] == 'c');
    assert("-f"@[1] == 'f');
    assert("-i"@[1] == 'i');
    assert("-t"@[1] == 't');
    assert("-y"@[1] == 'y');
}

/// The per-stream video copy flag token, and how it differs from every
/// other flag emitted.
proof fn lemma_tok_cv()
    ensures
        dash_tok("-c:v"@),
        "-c:v"@ != "-f"@,
        "-c:v"@ != "-safe"@,
        "-c:v"@ != "-i"@,
        "-c:v"@ != "-ss"@,
        "-c:v"@ != "-t"@,
        "-c:v"@ != "-pixel_format"@,
        "-c:v"@ != "-video_size"@,
        "-c:v"@ != "-framerate"@,
        "-c:v"@ != "-vf"@,
        "-c:v"@ != "-af"@,
        "-c:v"@ != "-c"@,
        "-c:v"@ != "-c:a"@,
        "-c:v"@ != "-avoid_negative_ts"@,
        "-c:v"@ != "-vframes"@,
        "-c:v"@ != "-progress"@,
        "-c:v"@ != "-y"@,
{
    reveal_strlit("-c:v");
    reveal_strlit("-f");
    reveal_strlit("-safe");
    reveal_strlit("-i");
    reveal_strlit("-ss");
    reveal_strlit("-t");
    reveal_strlit("-pixel_format");
    reveal_strlit("-video_size");
    reveal_strlit("-framerate");
    reveal_strlit("-vf");
    reveal_strlit("-af");
    reveal_strlit("-c");
    reveal_strlit("-c:a");
    reveal_strlit("-avoid_negative_ts");
    reveal_strlit("-vframes");
    reveal_strlit("-progress");
    reveal_strlit("-y");
    assert("-c:v"@.len() == 4);
    assert("-f"@.len() == 2);
    assert("-safe"@.len() == 5);
    assert("-i"@.len() == 2);
    assert("-ss"@.len() == 3);
    assert("-t"@.len() == 2);
    assert("-pixel_format"@.len() == 13);
    assert("-video_size"@.len() == 11);
    assert("-framerate"@.len() == 10);
    assert("-vf"@.len() == 3);
    assert("-af"@.len() == 3);
    assert("-c"@.len() == 2);
    assert("-c:a"@.len() == 4);
    assert("-avoid_negative_ts"@.len() == 18);
    assert("-vframes"@.len() == 8);
    assert("-progress"@.len() == 9);
    assert("-y"@.len() == 2);
    assert("-c:v"@[0] == '-');
    assert("-c:v"@[1] == 'c');
    assert("-c:v"@[2] == ':');
    assert("-c:v"@[3] == 'v');
    assert("-c:a"@[3] == 'a');
}

/// The per-stream audio codec flag token, and how it differs from every
/// other flag emitted.
proof fn lemma_tok_ca()
    ensures
        dash_tok("-c:a"@),
        "-c:a"@ != "-f"@,
        "-c:a"@ != "-safe"@,
        "-c:a"@ != "-i"@,
        "-c:a"@ != "-ss"@,
        "-c:a"@ != "-t"@,
        "-c:a"@ != "-pixel_format"@,
        "-c:a"@ != "-video_size"@,
        "-c:a"@ != "-framerate"@,
        "-c:a"@ != "-vf"@,
        "-c:a"@ != "-af"@,
        "-c:a"@ != "-c"@,
        "-c:a"@ != "-c:v"@,
        "-c:a"@ != "-avoid_negative_ts"@,
        "-c:a"@ != "-vframes"@,
        "-c:a"@ != "-progress"@,
        "-c:a"@ != "-y"@,
{
    reveal_strlit("-c:a");
    reveal_strlit("-f");
    reveal_strlit("-safe");
    reveal_strlit("-i");
    reveal_strlit("-ss");
    reveal_strlit("-t");
    reveal_strlit("-pixel_format");
    reveal_strlit("-video_size");
    reveal_strlit("-framerate");
    reveal_strlit("-vf");
    reveal_strlit("-af");
    reveal_strlit("-c");
    reveal_strlit("-c:v");
    reveal_strlit("-avoid_negative_ts");
    reveal_strlit("-vframes");
    reveal_strlit("-progress");
    reveal_strlit("-y");
    assert("-c:a"@.len() == 4);
    assert("-f"@.len() == 2);
    assert("-safe"@.len() == 5);
    assert("-i"@.len() == 2);
    assert("-ss"@.len() == 3);
    assert("-t"@.len() == 2);
    assert("-pixel_format"@.len() == 13);
    assert("-video_size"@.len() == 11);
    assert("-framerate"@.len() == 10);
    assert("-vf"@.len() == 3);
    assert("-af"@.len() == 3);
    assert("-c"@.len() == 2);
    assert("-c:v"@.len() == 4);
    assert("-avoid_negative_ts"@.len() == 18);
    assert("-vframes"@.len() == 8);
    assert("-progress"@.len() == 9);
    assert("-y"@.len() == 2);
    assert("-c:a"@[0] == '-');
    assert("-c:a"@[1] == 'c');
    assert("-c:a"@[2] == ':');
    assert("-c:a"@[3] == 'a');
    assert("-c:v"@[3] == 'v');
}

/// The audio filter flag token, and how it differs from every flag a
/// concat-mode list can hold.
proof fn lemma_tok_af()
    ensures
        dash_tok("-af"@),
        "-af"@ != "-f"@,
        "-af"@ != "-safe"@,
        "-af"@ != "-i"@,
        "-af"@ != "-c"@,
        "-af"@ != "-c:v"@,
        "-af"@ != "-c:a"@,
        "-af"@ != "-avoid_negative_ts"@,
        "-af"@ != "-preset"@,
        "-af"@ != "-crf"@,
        "-af"@ != "-pix_fmt"@,
        "-af"@ != "-b:a"@,
        "-af"@ != "-vframes"@,
        "-af"@ != "-progress"@,
        "-af"@ != "-y"@,
{
    reveal_strlit("-af");
    reveal_strlit("-f");
    reveal_strlit("-safe");
    reveal_strlit("-i");
    reveal_strlit("-c");
    reveal_strlit("-c:v");
    reveal_strlit("-c:a");
    reveal_strlit("-avoid_negative_ts");
    reveal_strlit("-preset");
    reveal_strlit("-crf");
    reveal_strlit("-pix_fmt");
    reveal_strlit("-b:a");
    reveal_strlit("-vframes");
    reveal_strlit("-progress");
    reveal_strlit("-y");
    assert("-af"@.len() == 3);
    assert("-f"@.len() == 2);
    assert("-safe"@.len() == 5);
    assert("-i"@.len() == 2);
    assert("-c"@.len() == 2);
    assert("-c:v"@.len() == 4);
    assert("-c:a"@.len() == 4);
    assert("-avoid_negative_ts"@.len() == 18);
    assert("-preset"@.len() == 7);
    assert("-crf"@.len() == 4);
    assert("-pix_fmt"@.len() == 8);
    assert("-b:a"@.len() == 4);
    assert("-vframes"@.len() == 8);
    assert("-progress"@.len() == 9);
    assert("-y"@.len() == 2);
    assert("-af"@[0] == '-');
    assert("-af"@[1] == 'a');
}

/// The seek segment holds no flag token other than its own two.
proof fn lemma_seg_seek_no(s: BuilderSpec, t: Seq<char>)
    requires
        dash_tok(t),
        t != "-ss"@,
        t != "-t"@,
    ensures
        !seg_seek(s).contains(t),
{
    if s.thumbnail_ms is Some {
        lemma_millis_str_first(s.thumbnail_ms->0 as nat);
        lemma_digit_first_ne(millis_str(s.thumbnail_ms->0 as nat), t);
    }
    if s.trim_start_ms is Some {
        lemma_millis_str_first(s.trim_start_ms->0 as nat);
        lemma_digit_first_ne(millis_str(s.trim_start_ms->0 as nat), t);
    }
    if s.trim_duration_ms is Some {
        lemma_millis_str_first(s.trim_duration_ms->0 as nat);
        lemma_digit_first_ne(millis_str(s.trim_duration_ms->0 as nat), t);
    }
    assert forall|i: int| 0 <= i < seg_seek(s).len() implies seg_seek(s)[i] != t by {}
}

/// The input segment holds no flag token other than its own five.
proof fn lemma_seg_input_no(s: BuilderSpec, t: Seq<char>)
    requires
        benign_fields(s),
        dash_tok(t),
        t != "-f"@,
        t != "-pixel_format"@,
        t != "-video_size"@,
        t != "-framerate"@,
        t != "-i"@,
    ensures
        !seg_input(s).contains(t),
{
    reveal_strlit("rawvideo");
    reveal_strlit("pipe:0");
    if s.raw_input is Some {
        let r = s.raw_input->0;
        lemma_benign_ne("rawvideo"@, t);
        lemma_benign_ne(r.pixel_format, t);
        lemma_benign_ne(r.video_size, t);
        lemma_dec_str_digits(r.framerate as nat);
        lemma_digit_first_ne(dec_str(r.framerate as nat), t);
        if s.input is Some {
            lemma_benign_ne(s.input->0, t);
        } else {
            lemma_benign_ne("pipe:0"@, t);
        }
    } else if s.input is Some {
        lemma_benign_ne(s.input->0, t);
    }
    assert forall|i: int| 0 <= i < seg_input(s).len() implies seg_input(s)[i] != t by {}
}

/// The video filter segment holds no flag token other than its own.
proof fn lemma_seg_vf_no(s: BuilderSpec, t: Seq<char>)
    requires
        dash_tok(t),
        t != "-vf"@,
    ensures
        !seg_vf(s).contains(t),
{
    lemma_vf_chain_benign(s);
    lemma_benign_ne(vf_chain(s), t);
    assert forall|i: int| 0 <= i < seg_vf(s).len() implies seg_vf(s)[i] != t by {}
}

/// The audio filter segment holds no flag token other than its own.
proof fn lemma_seg_af_no(s: BuilderSpec, t: Seq<char>)
    requires
        dash_tok(t),
        t != "-af"@,
    ensures
        !seg_af(s).contains(t),
{
    lemma_af_chain_benign(s);
    lemma_benign_ne(af_chain(s), t);
    assert forall|i: int| 0 <= i < seg_af(s).len() implies seg_af(s)[i] != t by {}
}

/// The codec segment holds no flag token other than the flags its branch
/// actually emits.
proof fn lemma_seg_codec_no(s: BuilderSpec, t: Seq<char>)
    requires
        benign_fields(s),
        dash_tok(t),
        t != "-avoid_negative_ts"@,
        s.stream_copy && !has_audio_filter(s) ==> t != "-c"@,
        s.stream_copy && has_audio_filter(s) ==> t != "-c:v"@ && t != "-c:a"@,
        !s.stream_copy ==> t != "-c:v"@ && t != "-c:a"@ && t != "-preset"@ && t != "-crf"@ && t
            != "-pix_fmt"@ && t != "-b:a"@,
    ensures
        !seg_codec(s).contains(t),
{
    reveal_strlit("copy");
    reveal_strlit("aac");
    reveal_strlit("make_zero");
    if s.stream_copy {
        lemma_benign_ne("copy"@, t);
        lemma_benign_ne("aac"@, t);
        lemma_benign_ne("make_zero"@, t);
        assert forall|i: int| 0 <= i < seg_codec(s).len() implies seg_codec(s)[i] != t by {}
    } else {
        if s.video_codec is Some {
            lemma_benign_ne(s.video_codec->0, t);
        }
        if s.preset is Some {
            lemma_benign_ne(s.preset->0, t);
        }
        if s.crf is Some {
            lemma_dec_str_digits(s.crf->0 as nat);
            lemma_digit_first_ne(dec_str(s.crf->0 as nat), t);
        }
        if s.pixel_format is Some {
            lemma_benign_ne(s.pixel_format->0, t);
        }
        if s.audio_codec is Some {
            lemma_benign_ne(s.audio_codec->0, t);
        }
        if s.audio_bitrate is Some {
            lemma_benign_ne(s.audio_bitrate->0, t);
        }
        assert forall|i: int| 0 <= i < seg_codec(s).len() implies seg_codec(s)[i] != t by {}
    }
}

/// The trailing segments hold no flag token other than their own three.
proof fn lemma_seg_tail_no(s: BuilderSpec, t: Seq<char>)
    requires
        benign_fields(s),
        dash_tok(t),
        t != "-vframes"@,
        t != "-progress"@,
        t != "-y"@,
    ensures
        !seg_thumb(s).contains(t),
        !seg_progress(s).contains(t),
        !seg_output(s).contains(t),
{
    reveal_strlit("1");
    reveal_strlit("pipe:2");
    lemma_benign_ne("1"@, t);
    lemma_benign_ne("pipe:2"@, t);
    if s.output is Some {
        lemma_benign_ne(s.output->0, t);
    }
    assert forall|i: int| 0 <= i < seg_thumb(s).len() implies seg_thumb(s)[i] != t by {}
    assert forall|i: int| 0 <= i < seg_progress(s).len() implies seg_progress(s)[i] != t by {}
    assert forall|i: int| 0 <= i < seg_output(s).len() implies seg_output(s)[i] != t by {}
}

/// The concat segment holds no flag token other than its own three.
proof fn lemma_seg_concat_no(s: BuilderSpec, t: Seq<char>)
    requires
        benign_fields(s),
        s.concat_list is Some,
        dash_tok(t),
        t != "-f"@,
        t != "-safe"@,
        t != "-i"@,
    ensures
        !seg_concat(s).contains(t),
{
    reveal_strlit("concat");
    reveal_strlit("0");
    lemma_benign_ne("concat"@, t);
    lemma_benign_ne("0"@, t);
    lemma_benign_ne(s.concat_list->0, t);
    assert forall|i: int| 0 <= i < seg_concat(s).len() implies seg_concat(s)[i] != t by {}
}

/// A flag token that no emitted segment holds is absent from the whole
/// list.
proof fn lemma_args_no(s: BuilderSpec, t: Seq<char>)
    requires
        benign_fields(s),
        dash_tok(t),
        t != "-f"@,
        t != "-safe"@,
        t != "-i"@,
        s.concat_list is None ==> t != "-ss"@ && t != "-t"@ && t != "-pixel_format"@ && t
            != "-video_size"@ && t != "-framerate"@ && t != "-vf"@ && t != "-af"@,
        t != "-avoid_negative_ts"@,
        t != "-vframes"@,
        t != "-progress"@,
        t != "-y"@,
        s.stream_copy && !has_audio_filter(s) ==> t != "-c"@,
        s.stream_copy && has_audio_filter(s) ==> t != "-c:v"@ && t != "-c:a"@,
        !s.stream_copy ==> t != "-c:v"@ && t != "-c:a"@ && t != "-preset"@ && t != "-crf"@ && t
            != "-pix_fmt"@ && t != "-b:a"@,
    ensures
        !spec_build_args(s).contains(t),
{
    let head = if s.concat_list is Some {
        seg_concat(s)
    } else {
        seg_seek(s) + seg_input(s) + seg_vf(s) + seg_af(s)
    };
    if s.concat_list is Some {
        lemma_seg_concat_no(s, t);
    } else {
        lemma_seg_seek_no(s, t);
        lemma_seg_input_no(s, t);
        lemma_seg_vf_no(s, t);
        lemma_seg_af_no(s, t);
        lemma_no_contains_concat(seg_seek(s), seg_input(s), t);
        lemma_no_contains_concat(seg_seek(s) + seg_input(s), seg_vf(s), t);
        lemma_no_contains_concat(seg_seek(s) + seg_input(s) + seg_vf(s), seg_af(s), t);
    }
    lemma_seg_codec_no(s, t);
    lemma_seg_tail_no(s, t);
    lemma_no_contains_concat(head, seg_codec(s), t);
    lemma_no_contains_concat(head + seg_codec(s), seg_thumb(s), t);
    lemma_no_contains_concat(head + seg_codec(s) + seg_thumb(s), seg_progress(s), t);
    lemma_no_contains_concat(
        head + seg_codec(s) + seg_thumb(s) + seg_progress(s),
        seg_output(s),
        t,
    );
}

/// Stream copy without an audio filter: the argument list carries the
/// combined copy flag with "copy" right after it, and never the split
/// per-stream codec flags.
pub proof fn lemma_stream_copy_plain(s: BuilderSpec)
    requires
        s.stream_copy,
        !has_audio_filter(s),
        benign_fields(s),
    ensures
        ({
            let args = spec_build_args(s);
            &&& exists|i: int|
                0 <= i && i + 1 < args.len() && #[trigger] args[i] == "-c"@ && args[i + 1]
                    == "copy"@
            &&& !args.contains("-c:v"@)
            &&& !args.contains("-c:a"@)
        }),
{
    lemma_tok_cv();
    lemma_tok_ca();
    let args = spec_build_args(s);
    let head = if s.concat_list is Some {
        seg_concat(s)
    } else {
        seg_seek(s) + seg_input(s) + seg_vf(s) + seg_af(s)
    };
    let i = head.len() as int;
    assert(args =~= head + seg_codec(s) + seg_thumb(s) + seg_progress(s) + seg_output(s));
    assert(args[i] == seg_codec(s)[0]);
    assert(args[i + 1] == seg_codec(s)[1]);
    assert(args[i] == "-c"@ && args[i + 1] == "copy"@);
    lemma_args_no(s, "-c:v"@);
    lemma_args_no(s, "-c:a"@);
}

/// Stream copy with an audio filter: the video stream is still copied and
/// audio is forced to a real encoder; the combined copy flag never
/// appears.
pub proof fn lemma_stream_copy_with_audio(s: BuilderSpec)
    requires
        s.stream_copy,
        has_audio_filter(s),
        benign_fields(s),
    ensures
        ({
            let args = spec_build_args(s);
            &&& exists|i: int|
                0 <= i && i + 1 < args.len() && #[trigger] args[i] == "-c:v"@ && args[i + 1]
                    == "copy"@
            &&& exists|i: int|
                0 <= i && i + 1 < args.len() && #[trigger] args[i] == "-c:a"@ && args[i + 1]
                    == "aac"@
            &&& !args.contains("-c"@)
        }),
{
    lemma_tok_c();
    let args = spec_build_args(s);
    let head = if s.concat_list is Some {
        seg_concat(s)
    } else {
        seg_seek(s) + seg_input(s) + seg_vf(s) + seg_af(s)
    };
    let i = head.len() as int;
    assert(args =~= head + seg_codec(s) + seg_thumb(s) + seg_progress(s) + seg_output(s));
    assert(args[i] == seg_codec(s)[0]);
    assert(args[i + 1] == seg_codec(s)[1]);
    assert(args[i + 2] == seg_codec(s)[2]);
    assert(args[i + 3] == seg_codec(s)[3]);
    assert(args[i] == "-c:v"@ && args[i + 1] == "copy"@);
    assert(args[i + 2] == "-c:a"@ && args[i + 3] == "aac"@);
    lemma_args_no(s, "-c"@);
}

/// A trim without a thumbnail or concat input: the list opens with the
/// seek flag, the canonical start time, the duration flag and the
/// canonical duration, and neither flag recurs later.
#[verifier::rlimit(60)]
pub proof fn lemma_trim_tokens(s: BuilderSpec)
    requires
        s.concat_list is None,
        s.thumbnail_ms is None,
        s.trim_start_ms is Some,
        s.trim_duration_ms is Some,
        benign_fields(s),
    ensures
        ({
            let args = spec_build_args(s);
            &&& args.len() >= 4
            &&& args[0] == "-ss"@
            &&& args[1] == millis_str(s.trim_start_ms->0 as nat)
            &&& args[2] == "-t"@
            &&& args[3] == millis_str(s.trim_duration_ms->0 as nat)
            &&& forall|i: int|
                4 <= i < args.len() ==> args[i] != "-ss"@ && args[i] != "-t"@
        }),
{
    lemma_tok_ss();
    lemma_tok_t();
    let args = spec_build_args(s);
    let rest = seg_input(s) + seg_vf(s) + seg_af(s) + seg_codec(s) + seg_thumb(s) + seg_progress(
        s,
    ) + seg_output(s);
    assert(args =~= seg_seek(s) + rest);
    lemma_seg_input_no(s, "-ss"@);
    lemma_seg_vf_no(s, "-ss"@);
    lemma_seg_af_no(s, "-ss"@);
    lemma_seg_codec_no(s, "-ss"@);
    lemma_seg_tail_no(s, "-ss"@);
    lemma_seg_input_no(s, "-t"@);
    lemma_seg_vf_no(s, "-t"@);
    lemma_seg_af_no(s, "-t"@);
    lemma_seg_codec_no(s, "-t"@);
    lemma_seg_tail_no(s, "-t"@);
    lemma_no_contains_concat(seg_input(s), seg_vf(s), "-ss"@);
    lemma_no_contains_concat(seg_input(s) + seg_vf(s), seg_af(s), "-ss"@);
    lemma_no_contains_concat(seg_input(s) + seg_vf(s) + seg_af(s), seg_codec(s), "-ss"@);
    lemma_no_contains_concat(
        seg_input(s) + seg_vf(s) + seg_af(s) + seg_codec(s),
        seg_thumb(s),
        "-ss"@,
    );
    lemma_no_contains_concat(
        seg_input(s) + seg_vf(s) + seg_af(s) + seg_codec(s) + seg_thumb(s),
        seg_progress(s),
        "-ss"@,
    );
    lemma_no_contains_concat(
        seg_input(s) + seg_vf(s) + seg_af(s) + seg_codec(s) + seg_thumb(s) + seg_progress(s),
        seg_output(s),
        "-ss"@,
    );
    lemma_no_contains_concat(seg_input(s), seg_vf(s), "-t"@);
    lemma_no_contains_concat(seg_input(s) + seg_vf(s), seg_af(s), "-t"@);
    lemma_no_contains_concat(seg_input(s) + seg_vf(s) + seg_af(s), seg_codec(s), "-t"@);
    lemma_no_contains_concat(
        seg_input(s) + seg_vf(s) + seg_af(s) + seg_codec(s),
        seg_thumb(s),
        "-t"@,
    );
    lemma_no_contains_concat(
        seg_input(s) + seg_vf(s) + seg_af(s) + seg_codec(s) + seg_thumb(s),
        seg_progress(s),
        "-t"@,
    );
    lemma_no_contains_concat(
        seg_input(s) + seg_vf(s) + seg_af(s) + seg_codec(s) + seg_thumb(s) + seg_progress(s),
        seg_output(s),
        "-t"@,
    );
    assert(!rest.contains("-ss"@));
    assert(!rest.contains("-t"@));
    assert forall|i: int| 4 <= i < args.len() implies args[i] != "-ss"@ && args[i] != "-t"@ by {
        assert(args[i] == rest[i - 4]);
    }
}

/// Concat mode never seeks, trims or applies a filter of either kind,
/// whatever else was configured: its sources are pre-normalized.
pub proof fn lemma_concat_excludes(s: BuilderSpec)
    requires
        s.concat_list is Some,
        benign_fields(s),
    ensures
        !spec_build_args(s).contains("-ss"@),
        !spec_build_args(s).contains("-t"@),
        !spec_build_args(s).contains("-vf"@),
        !spec_build_args(s).contains("-af"@),
{
    lemma_tok_ss();
    lemma_tok_t();
    lemma_tok_vf();
    lemma_tok_af();
    lemma_args_no(s, "-ss"@);
    lemma_args_no(s, "-t"@);
    lemma_args_no(s, "-vf"@);
    lemma_args_no(s, "-af"@);
}

/// Crop-to-fill mode yields exactly one video filter flag, whose value is
/// the single fused scale-then-center-crop chain; no separate crop-only
/// clause ever accompanies it.
#[verifier::rlimit(60)]
pub proof fn lemma_scale_crop_single_vf(s: BuilderSpec)
    requires
        is_scale_crop(s),
        s.concat_list is None,
        benign_fields(s),
    ensures
        ({
            let args = spec_build_args(s);
            let pos = (seg_seek(s).len() + seg_input(s).len()) as int;
            &&& pos + 1 < args.len()
            &&& args[pos] == "-vf"@
            &&& args[pos + 1] == scale_crop_chain(s.scale_width->0, s.scale_height->0)
            &&& forall|i: int|
                0 <= i < args.len() && #[trigger] args[i] == "-vf"@ ==> i == pos
        }),
{
    lemma_tok_vf();
    reveal_strlit("scale=");
    let args = spec_build_args(s);
    let chain = scale_crop_chain(s.scale_width->0, s.scale_height->0);
    assert(vf_chain(s) == chain);
    assert(chain.len() > 0);
    let a = seg_seek(s) + seg_input(s);
    let b = seg_af(s) + seg_codec(s) + seg_thumb(s) + seg_progress(s) + seg_output(s);
    let pos = a.len() as int;
    assert(args =~= a + seg_vf(s) + b);
    assert(args[pos] == seg_vf(s)[0]);
    assert(args[pos + 1] == seg_vf(s)[1]);
    lemma_seg_seek_no(s, "-vf"@);
    lemma_seg_input_no(s, "-vf"@);
    lemma_no_contains_concat(seg_seek(s), seg_input(s), "-vf"@);
    lemma_seg_af_no(s, "-vf"@);
    lemma_seg_codec_no(s, "-vf"@);
    lemma_seg_tail_no(s, "-vf"@);
    lemma_no_contains_concat(seg_af(s), seg_codec(s), "-vf"@);
    lemma_no_contains_concat(seg_af(s) + seg_codec(s), seg_thumb(s), "-vf"@);
    lemma_no_contains_concat(seg_af(s) + seg_codec(s) + seg_thumb(s), seg_progress(s), "-vf"@);
    lemma_no_contains_concat(
        seg_af(s) + seg_codec(s) + seg_thumb(s) + seg_progress(s),
        seg_output(s),
        "-vf"@,
    );
    lemma_vf_chain_benign(s);
    lemma_benign_ne(vf_chain(s), "-vf"@);
    assert forall|i: int| 0 <= i < args.len() && #[trigger] args[i] == "-vf"@ implies i
        == pos by {
        if i < pos {
            assert(args[i] == a[i]);
        } else if i == pos + 1 {
            assert(args[i] == vf_chain(s));
        } else if i > pos + 1 {
            assert(args[i] == b[i - pos - 2]);
        }
    }
}

} // verus!
