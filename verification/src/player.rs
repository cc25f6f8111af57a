//! Format selection: of the candidate media formats a resolved track
//! offers, pick the one the byte source is opened on — audio-only
//! candidates ranked by quality score, later candidates winning ties.

use vstd::prelude::*;

verus! {

/// One candidate encoding of a resolved track, as the metadata resolver
/// reports it: codec names (with `"none"` as an explicit absence sentinel),
/// a quality score, and the direct media URL.
#[derive(Debug, Clone)]
pub struct MediaFormat {
    pub format_note: Option<String>,
    /// Quality score as an integer rank; absent scores rank below every
    /// reported one.
    pub quality: Option<i32>,
    /// Video codec name; absent or `"none"` means no video.
    pub vcodec: Option<String>,
    /// Audio codec name; absent or `"none"` means no audio.
    pub acodec: Option<String>,
    pub video_ext: String,
    pub audio_ext: String,
    pub ext: String,
    /// The direct media URL the byte source is opened on.
    pub url: String,
}

/// Whether a candidate is usable for audio playback: its audio codec is
/// present and not the `"none"` sentinel, and its video codec is absent or
/// `"none"`.
pub open spec fn spec_format_usable(f: MediaFormat) -> bool {
    &&& f.acodec matches Option::Some(a) && a@ != "none"@
    &&& match f.vcodec {
        Option::Some(v) => v@ == "none"@,
        Option::None => true,
    }
}

/// The rank a candidate is compared by: its quality score, with absent
/// scores ranked at -10, below every reported score of the resolver's
/// scale.
pub open spec fn spec_quality_key(f: MediaFormat) -> int {
    match f.quality {
        Option::Some(q) => q as int,
        Option::None => -10,
    }
}

/// Whether a candidate is usable for audio playback.
pub fn format_usable(f: &MediaFormat) -> (r: bool)
    ensures
        r == spec_format_usable(*f),
{
    let none_tag: String = "none".to_owned();
    let audio_ok = match &f.acodec {
        Option::Some(a) => !a.eq(&none_tag),
        Option::None => false,
    };
    if !audio_ok {
        return false;
    }
    match &f.vcodec {
        Option::Some(v) => v.eq(&none_tag),
        Option::None => true,
    }
}

/// The rank a candidate is compared by.
pub fn quality_key(f: &MediaFormat) -> (r: i32)
    ensures
        r == spec_quality_key(*f),
{
    match f.quality {
        Option::Some(q) => q,
        Option::None => -10,
    }
}

/// Select the candidate to play: among the usable ones, the index of the
/// one with the maximal quality rank, the last such index when several tie.
/// None exactly when no candidate is usable — the "no usable format"
/// condition, on which the playback attempt is abandoned.
pub fn select_format(formats: &Vec<MediaFormat>) -> (r: Option<usize>)
    ensures
        match r {
            Some(i) => {
                &&& i < formats@.len()
                &&& spec_format_usable(formats@[i as int])
                &&& forall|j: int|
                    0 <= j < formats@.len() && spec_format_usable(#[trigger] formats@[j])
                        ==> spec_quality_key(formats@[j]) <= spec_quality_key(formats@[i as int])
                &&& forall|j: int|
                    i < j < formats@.len() && spec_format_usable(#[trigger] formats@[j])
                        ==> spec_quality_key(formats@[j]) < spec_quality_key(formats@[i as int])
            },
            None => forall|j: int|
                0 <= j < formats@.len() ==> !spec_format_usable(#[trigger] formats@[j]),
        },
{
    let mut best: Option<usize> = None;
    let mut i: usize = 0;
    while i < formats.len()
        invariant
            i <= formats@.len(),
            match best {
                Some(b) => {
                    &&& b < i
                    &&& spec_format_usable(formats@[b as int])
                    &&& forall|j: int|
                        0 <= j < i && spec_format_usable(#[trigger] formats@[j])
                            ==> spec_quality_key(formats@[j]) <= spec_quality_key(
                            formats@[b as int],
                        )
                    &&& forall|j: int|
                        b < j < i && spec_format_usable(#[trigger] formats@[j])
                            ==> spec_quality_key(formats@[j]) < spec_quality_key(
                            formats@[b as int],
                        )
                },
                None => forall|j: int| 0 <= j < i ==> !spec_format_usable(#[trigger] formats@[j]),
            },
        decreases formats@.len() - i,
    {
        if format_usable(&formats[i]) {
            let key_i = quality_key(&formats[i]);
            match best {
                Some(b) => {
                    let key_b = quality_key(&formats[b]);
                    if key_i >= key_b {
                        best = Some(i);
                    }
                }
                None => {
                    best = Some(i);
                }
            }
        }
        i += 1;
    }
    best
}

} // verus!
