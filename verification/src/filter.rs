//! The filter-graph synthesizer: a pure function from the accumulated
//! transform state to a video filter-chain string and an audio
//! filter-chain string, honoring the crop-to-fill / explicit-crop / scale
//! precedence. An empty string means no filter of that kind.

use vstd::prelude::*;

use crate::builder::{BuilderSpec, FfmpegBuilder};
use crate::numfmt::{dec_str, u32_to_string, vol_str, volume_to_string};

verus! {

/// Crop-to-fill mode: scale and crop were requested with the same
/// dimensions, no explicit crop offsets, and padding off. The two are
/// fused into a single scale-then-center-crop chain.
pub open spec fn is_scale_crop(s: BuilderSpec) -> bool {
    &&& s.scale_width is Some
    &&& s.scale_height is Some
    &&& s.crop_width == s.scale_width
    &&& s.crop_height == s.scale_height
    &&& s.crop_x is None
    &&& s.crop_y is None
    &&& !s.scale_pad
}

/// The fused crop-to-fill chain: scale up to cover the target box, then
/// crop the overflow from the center with resolution-independent
/// expressions.
pub open spec fn scale_crop_chain(w: u32, h: u32) -> Seq<char> {
    "scale="@ + dec_str(w as nat) + ":"@ + dec_str(h as nat)
        + ":force_original_aspect_ratio=increase,crop="@ + dec_str(w as nat) + ":"@
        + dec_str(h as nat) + ":(iw-"@ + dec_str(w as nat) + ")/2:(ih-"@ + dec_str(h as nat)
        + ")/2"@
}

/// An explicit crop clause: offsets if both were given, else centered with
/// resolution-independent expressions.
pub open spec fn crop_clause(s: BuilderSpec, cw: u32, ch: u32) -> Seq<char> {
    if s.crop_x is Some && s.crop_y is Some {
        "crop="@ + dec_str(cw as nat) + ":"@ + dec_str(ch as nat) + ":"@ + dec_str(
            s.crop_x->0 as nat,
        ) + ":"@ + dec_str(s.crop_y->0 as nat)
    } else {
        "crop="@ + dec_str(cw as nat) + ":"@ + dec_str(ch as nat) + ":(iw-"@ + dec_str(cw as nat)
            + ")/2:(ih-"@ + dec_str(ch as nat) + ")/2"@
    }
}

/// The crop part of a normal-mode chain: present only when crop was
/// requested with dimensions different from the scale dimensions.
pub open spec fn crop_part(s: BuilderSpec) -> Seq<char> {
    if s.crop_width is Some && s.crop_height is Some && !(s.scale_width == s.crop_width
        && s.scale_height == s.crop_height) {
        crop_clause(s, s.crop_width->0, s.crop_height->0)
    } else {
        Seq::empty()
    }
}

/// The scale part of a normal-mode chain. A zero width is the marker for
/// even-dimension scaling; padding mode keeps the aspect ratio and fills
/// with black; a missing height falls back to an even computed height.
pub open spec fn scale_part(s: BuilderSpec) -> Seq<char> {
    if s.scale_width is Some {
        let w = s.scale_width->0;
        if w == 0 {
            "scale=trunc(iw/2)*2:trunc(ih/2)*2"@
        } else if s.scale_pad {
            if s.scale_height is Some {
                "scale="@ + dec_str(w as nat) + ":"@ + dec_str(s.scale_height->0 as nat)
                    + ":force_original_aspect_ratio=decrease,pad="@ + dec_str(w as nat) + ":"@
                    + dec_str(s.scale_height->0 as nat) + ":(ow-iw)/2:(oh-ih)/2:black"@
            } else {
                "scale="@ + dec_str(w as nat) + ":trunc(ih/2)*2"@
            }
        } else {
            if s.scale_height is Some {
                "scale="@ + dec_str(w as nat) + ":"@ + dec_str(s.scale_height->0 as nat)
            } else {
                "scale="@ + dec_str(w as nat) + ":trunc(ih/2)*2"@
            }
        }
    } else {
        Seq::empty()
    }
}

/// The whole video filter chain: the fused crop-to-fill chain, or the
/// crop and scale parts joined with a comma when both are present.
pub open spec fn vf_chain(s: BuilderSpec) -> Seq<char> {
    if is_scale_crop(s) {
        scale_crop_chain(s.scale_width->0, s.scale_height->0)
    } else {
        let c = crop_part(s);
        let sc = scale_part(s);
        if c.len() > 0 && sc.len() > 0 {
            c + ","@ + sc
        } else {
            c + sc
        }
    }
}

/// The audio filter chain: full mute wins over a volume factor; neither
/// gives an empty chain. Volume factors read as clamped to full volume,
/// as the builder clamps them at assignment time.
pub open spec fn af_chain(s: BuilderSpec) -> Seq<char> {
    if s.muted {
        "volume=0"@
    } else if s.volume is Some {
        "volume="@ + vol_str(if s.volume->0 > 100 {
            100nat
        } else {
            s.volume->0 as nat
        })
    } else {
        Seq::empty()
    }
}

/// Whether an audio filter is in effect (mute or a volume factor).
pub open spec fn has_audio_filter(s: BuilderSpec) -> bool {
    s.muted || s.volume is Some
}

/// Append the decimal rendering of `n` to `s`.
pub fn append_u32(s: &mut String, n: u32)
    ensures
        final(s)@ == old(s)@ + dec_str(n as nat),
{
    let t = u32_to_string(n);
    s.append(t.as_str());
}

impl FfmpegBuilder {
    /// Synthesize the video filter chain for the accumulated state; an
    /// empty string means no video filter.
    #[verifier::rlimit(60)]
    pub fn video_filter_chain(&self) -> (r: String)
        ensures
            r@ == vf_chain(self@),
    {
        let scale_crop = self.scale_width.is_some() && self.scale_height.is_some()
            && self.crop_width == self.scale_width && self.crop_height == self.scale_height
            && self.crop_x.is_none() && self.crop_y.is_none() && !self.scale_pad;
        if scale_crop {
            let w = *self.scale_width.as_ref().unwrap();
            let h = *self.scale_height.as_ref().unwrap();
            let mut f = String::from_str("scale=");
            append_u32(&mut f, w);
            f.append(":");
            append_u32(&mut f, h);
            f.append(":force_original_aspect_ratio=increase,crop=");
            append_u32(&mut f, w);
            f.append(":");
            append_u32(&mut f, h);
            f.append(":(iw-");
            append_u32(&mut f, w);
            f.append(")/2:(ih-");
            append_u32(&mut f, h);
            f.append(")/2");
            proof {
                assert(f@ =~= vf_chain(self@));
            }
            f
        } else {
            let mut f = String::new();
            let has_crop = self.crop_width.is_some() && self.crop_height.is_some()
                && !(self.scale_width == self.crop_width && self.scale_height == self.crop_height);
            if has_crop {
                let cw = *self.crop_width.as_ref().unwrap();
                let ch = *self.crop_height.as_ref().unwrap();
                f.append("crop=");
                append_u32(&mut f, cw);
                f.append(":");
                append_u32(&mut f, ch);
                if self.crop_x.is_some() && self.crop_y.is_some() {
                    f.append(":");
                    append_u32(&mut f, *self.crop_x.as_ref().unwrap());
                    f.append(":");
                    append_u32(&mut f, *self.crop_y.as_ref().unwrap());
                } else {
                    f.append(":(iw-");
                    append_u32(&mut f, cw);
                    f.append(")/2:(ih-");
                    append_u32(&mut f, ch);
                    f.append(")/2");
                }
                proof {
                    reveal_strlit("crop=");
                    assert(f@ =~= crop_part(self@));
                    assert(crop_part(self@).len() > 0);
                }
            } else {
                proof {
                    assert(f@ =~= crop_part(self@));
                }
            }
            if self.scale_width.is_some() {
                let w = *self.scale_width.as_ref().unwrap();
                if has_crop {
                    f.append(",");
                }
                if w == 0 {
                    f.append("scale=trunc(iw/2)*2:trunc(ih/2)*2");
                    proof {
                        reveal_strlit("scale=trunc(iw/2)*2:trunc(ih/2)*2");
                    }
                } else if self.scale_pad {
                    if self.scale_height.is_some() {
                        let h = *self.scale_height.as_ref().unwrap();
                        f.append("scale=");
                        append_u32(&mut f, w);
                        f.append(":");
                        append_u32(&mut f, h);
                        f.append(":force_original_aspect_ratio=decrease,pad=");
                        append_u32(&mut f, w);
                        f.append(":");
                        append_u32(&mut f, h);
                        f.append(":(ow-iw)/2:(oh-ih)/2:black");
                    } else {
                        f.append("scale=");
                        append_u32(&mut f, w);
                        f.append(":trunc(ih/2)*2");
                    }
                } else {
                    if self.scale_height.is_some() {
                        let h = *self.scale_height.as_ref().unwrap();
                        f.append("scale=");
                        append_u32(&mut f, w);
                        f.append(":");
                        append_u32(&mut f, h);
                    } else {
                        f.append("scale=");
                        append_u32(&mut f, w);
                        f.append(":trunc(ih/2)*2");
                    }
                }
                proof {
                    reveal_strlit("scale=");
                    assert(scale_part(self@).len() > 0);
                    assert(f@ =~= vf_chain(self@));
                }
            } else {
                proof {
                    assert(scale_part(self@).len() == 0);
                    assert(f@ =~= vf_chain(self@));
                }
            }
            f
        }
    }

    /// Synthesize the audio filter chain for the accumulated state; an
    /// empty string means no audio filter.
    pub fn audio_filter_chain(&self) -> (r: String)
        ensures
            r@ == af_chain(self@),
    {
        if self.muted {
            String::from_str("volume=0")
        } else if self.volume.is_some() {
            let v = *self.volume.as_ref().unwrap();
            let mut f = String::from_str("volume=");
            let t = volume_to_string(if v > 100 { 100 } else { v });
            f.append(t.as_str());
            proof {
                assert(f@ =~= af_chain(self@));
            }
            f
        } else {
            String::new()
        }
    }
}

} // verus!
