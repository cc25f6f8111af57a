//! The decode pipeline: track selection over a probed format, decoder
//! parameter validation, sample-layout normalization, and the pull loop that
//! refills a per-packet sample queue and drains it one sample at a time.
//!
//! The embedder drives the demuxer and the codec; every decision — which
//! track to decode, whether a packet belongs to it, what a decode outcome
//! does to the stream, when the next packet is requested — is taken here.

use vstd::prelude::*;

use crate::errors::{CodecError, SetupError};
use crate::registry::{CodecRegistry, CODEC_ID_NULL};

verus! {

/// The largest number of samples one compressed Opus packet can decode to,
/// per channel (120 ms at 48 kHz).
pub const OPUS_MAX_FRAME_SAMPLES: usize = 5760;

/// A channel layout a probed track can report.
#[derive(Debug, Clone, Copy, PartialEq, Eq, Structural)]
pub enum ChannelLayout {
    Mono,
    Stereo,
    TwoPointOne,
    FivePointOne,
}

/// How many channels a layout carries.
pub open spec fn spec_layout_channels(layout: ChannelLayout) -> u16 {
    match layout {
        ChannelLayout::Mono => 1,
        ChannelLayout::Stereo => 2,
        ChannelLayout::TwoPointOne => 3,
        ChannelLayout::FivePointOne => 6,
    }
}

/// How many channels a layout carries.
pub fn layout_channels(layout: ChannelLayout) -> (r: u16)
    ensures
        r == spec_layout_channels(layout),
{
    match layout {
        ChannelLayout::Mono => 1,
        ChannelLayout::Stereo => 2,
        ChannelLayout::TwoPointOne => 3,
        ChannelLayout::FivePointOne => 6,
    }
}

/// What the pipeline reads of one probed track: its identifier inside the
/// container, its codec, and the stream parameters the decoder needs.
/// Immutable once the format is probed.
#[derive(Debug, Clone, PartialEq, Eq, Structural)]
pub struct TrackDescriptor {
    /// The track's identifier inside the container.
    pub id: u32,
    /// The codec identifier; `CODEC_ID_NULL` marks "no codec".
    pub codec_id: u32,
    /// Samples per second, when the container reports it.
    pub sample_rate: Option<u32>,
    /// Explicit channel count, when the container reports one.
    pub channel_count: Option<u16>,
    /// Channel layout, when the container reports one.
    pub channel_layout: Option<ChannelLayout>,
}

/// The channel count a decode session exposes: the explicit count when
/// present, else the count the reported layout implies.
pub open spec fn spec_channel_count(
    explicit: Option<u16>,
    layout: Option<ChannelLayout>,
) -> Option<u16> {
    match explicit {
        Option::Some(c) => Option::Some(c),
        Option::None => match layout {
            Option::Some(l) => Option::Some(spec_layout_channels(l)),
            Option::None => Option::None,
        },
    }
}

/// The channel count a decode session exposes, falling back from the
/// explicit count to the layout-derived one.
pub fn channel_count(explicit: Option<u16>, layout: Option<ChannelLayout>) -> (r: Option<u16>)
    ensures
        r == spec_channel_count(explicit, layout),
{
    match explicit {
        Option::Some(c) => Option::Some(c),
        Option::None => match layout {
            Option::Some(l) => Option::Some(layout_channels(l)),
            Option::None => Option::None,
        },
    }
}

/// Select the track to decode: the first one whose codec is not the
/// "no codec" marker. None when no track qualifies.
pub fn select_track(tracks: &Vec<TrackDescriptor>) -> (r: Option<usize>)
    ensures
        match r {
            Some(i) => {
                &&& i < tracks@.len()
                &&& tracks@[i as int].codec_id != CODEC_ID_NULL
                &&& forall|j: int|
                    0 <= j < i ==> (#[trigger] tracks@[j]).codec_id == CODEC_ID_NULL
            },
            None => forall|j: int|
                0 <= j < tracks@.len() ==> (#[trigger] tracks@[j]).codec_id == CODEC_ID_NULL,
        },
{
    let mut i: usize = 0;
    while i < tracks.len()
        invariant
            i <= tracks@.len(),
            forall|j: int| 0 <= j < i ==> (#[trigger] tracks@[j]).codec_id == CODEC_ID_NULL,
        decreases tracks@.len() - i,
    {
        if tracks[i].codec_id != CODEC_ID_NULL {
            return Some(i);
        }
        i += 1;
    }
    None
}

/// Select the track to decode and look its codec up in the registry: the
/// index of the first usable track together with the registered
/// decoder-construction value. `NoTrackFound` exactly when every track
/// carries the "no codec" marker; `UnsupportedCodec` exactly when the
/// selected track's codec has no registry entry.
pub fn choose_track_and_codec<'a, V>(
    tracks: &Vec<TrackDescriptor>,
    registry: &'a CodecRegistry<V>,
) -> (r: Result<(usize, &'a V), SetupError>)
    requires
        registry.wf(),
    ensures
        match r {
            Ok(chosen) => {
                &&& chosen.0 < tracks@.len()
                &&& tracks@[chosen.0 as int].codec_id != CODEC_ID_NULL
                &&& forall|j: int|
                    0 <= j < chosen.0 ==> (#[trigger] tracks@[j]).codec_id == CODEC_ID_NULL
                &&& registry.as_map().dom().contains(tracks@[chosen.0 as int].codec_id)
                &&& *chosen.1 == registry.as_map()[tracks@[chosen.0 as int].codec_id]
            },
            Err(e) => match e {
                SetupError::NoTrackFound => forall|j: int|
                    0 <= j < tracks@.len() ==> (#[trigger] tracks@[j]).codec_id == CODEC_ID_NULL,
                SetupError::UnsupportedCodec(id) => exists|i: int|
                    {
                        &&& 0 <= i < tracks@.len()
                        &&& (#[trigger] tracks@[i]).codec_id == id
                        &&& id != CODEC_ID_NULL
                        &&& !registry.as_map().dom().contains(id)
                        &&& forall|j: int| 0 <= j < i ==> tracks@[j].codec_id == CODEC_ID_NULL
                    },
            },
        },
{
    let i = match select_track(tracks) {
        Some(i) => i,
        None => {
            return Err(SetupError::NoTrackFound);
        }
    };
    let codec_id = tracks[i].codec_id;
    match registry.get(codec_id) {
        Some(v) => Ok((i, v)),
        None => Err(SetupError::UnsupportedCodec(codec_id)),
    }
}

/// The parameters an Opus decoder is constructed from: validated stream
/// parameters of the selected track.
#[derive(Debug, Clone, Copy, PartialEq, Eq, Structural)]
pub struct OpusConfig {
    /// Samples per second.
    pub sample_rate: u32,
    /// The reported layout; only mono and stereo are decodable.
    pub layout: ChannelLayout,
    /// Channels per frame, implied by the layout: 1 or 2.
    pub channel_count: u16,
}

/// What Opus decoder construction comes to for a track: the validated
/// configuration, or the exact reason the track cannot be decoded.
pub open spec fn spec_opus_config(track: TrackDescriptor) -> Result<OpusConfig, CodecError> {
    match track.sample_rate {
        Option::None => Result::Err(CodecError::SampleRateUnknown),
        Option::Some(sample_rate) => match track.channel_layout {
            Option::None => Result::Err(CodecError::ChannelLayoutUnknown),
            Option::Some(layout) => if layout is Mono || layout is Stereo {
                Result::Ok(
                    OpusConfig {
                        sample_rate,
                        layout,
                        channel_count: spec_layout_channels(layout),
                    },
                )
            } else {
                Result::Err(CodecError::UnsupportedChannelLayout)
            },
        },
    }
}

/// Validate a track's parameters for Opus decoding: the sample rate and the
/// channel layout must be reported, and the layout must be mono or stereo.
/// Each failure names the first missing or unsupported parameter.
pub fn opus_config(track: &TrackDescriptor) -> (r: Result<OpusConfig, CodecError>)
    ensures
        r == spec_opus_config(*track),
{
    let sample_rate = match track.sample_rate {
        Option::Some(sr) => sr,
        Option::None => {
            return Err(CodecError::SampleRateUnknown);
        }
    };
    let layout = match track.channel_layout {
        Option::Some(l) => l,
        Option::None => {
            return Err(CodecError::ChannelLayoutUnknown);
        }
    };
    match layout {
        ChannelLayout::Mono => Ok(
            OpusConfig { sample_rate, layout, channel_count: 1 },
        ),
        ChannelLayout::Stereo => Ok(
            OpusConfig { sample_rate, layout, channel_count: 2 },
        ),
        _ => Err(CodecError::UnsupportedChannelLayout),
    }
}

/// How many samples the decode buffer for one Opus packet must hold:
/// one maximal frame for every channel.
pub fn opus_output_capacity(channel_count: u16) -> (r: usize)
    ensures
        r == OPUS_MAX_FRAME_SAMPLES * channel_count,
{
    OPUS_MAX_FRAME_SAMPLES * (channel_count as usize)
}

/// Split a flat interleaved sample buffer into per-channel planes:
/// plane `c` holds, in order, every sample whose interleaved index is
/// congruent to `c`. Exactly `frames` samples go to each of the `channels`
/// planes.
pub fn planes_from_interleaved<T: Copy>(
    samples: &Vec<T>,
    channels: usize,
    frames: usize,
) -> (r: Vec<Vec<T>>)
    requires
        channels >= 1,
        frames * channels <= samples@.len(),
    ensures
        r@.len() == channels,
        forall|c: int| 0 <= c < channels ==> (#[trigger] r@[c])@.len() == frames,
        forall|c: int, i: int|
            0 <= c < channels && 0 <= i < frames ==> r@[c]@[i] == samples@[i * channels + c],
{
    let total = samples.len();
    let mut r: Vec<Vec<T>> = Vec::new();
    let mut c: usize = 0;
    while c < channels
        invariant
            c <= channels,
            channels >= 1,
            frames * channels <= samples@.len(),
            samples@.len() == total,
            r@.len() == c,
            forall|c2: int| 0 <= c2 < c ==> (#[trigger] r@[c2])@.len() == frames,
            forall|c2: int, i2: int|
                0 <= c2 < c && 0 <= i2 < frames ==> r@[c2]@[i2] == samples@[i2 * channels + c2],
        decreases channels - c,
    {
        let mut plane: Vec<T> = Vec::new();
        let mut i: usize = 0;
        while i < frames
            invariant
                i <= frames,
                c < channels,
                channels >= 1,
                frames * channels <= samples@.len(),
                samples@.len() == total,
                plane@.len() == i,
                forall|i2: int| 0 <= i2 < i ==> plane@[i2] == samples@[i2 * channels + c],
            decreases frames - i,
        {
            proof {
                assert(i * channels + c < frames * channels) by (nonlinear_arith)
                    requires
                        0 <= i < frames,
                        0 <= c < channels,
                ;
            }
            let idx = i * channels + c;
            plane.push(samples[idx]);
            i += 1;
        }
        r.push(plane);
        c += 1;
    }
    r
}

/// The number of frames the planes agree on: the length of the shortest
/// plane. A ragged or partially filled set of planes contributes only the
/// frames every channel has.
pub open spec fn spec_min_plane_len<T>(planes: Seq<Seq<T>>) -> int
    decreases planes.len(),
{
    if planes.len() == 0 {
        0
    } else {
        let rest = spec_min_plane_len(planes.drop_last());
        if planes.last().len() < rest || planes.len() == 1 {
            planes.last().len() as int
        } else {
            rest
        }
    }
}

/// `spec_min_plane_len` is a lower bound on every plane, and is attained.
pub proof fn lemma_min_plane_len<T>(planes: Seq<Seq<T>>)
    requires
        planes.len() > 0,
    ensures
        forall|c: int|
            0 <= c < planes.len() ==> spec_min_plane_len(planes) <= (#[trigger] planes[c]).len(),
        exists|c: int|
            0 <= c < planes.len() && spec_min_plane_len(planes) == (#[trigger] planes[c]).len(),
    decreases planes.len(),
{
    if planes.len() == 1 {
        assert(spec_min_plane_len(planes) == planes[0].len());
    } else {
        lemma_min_plane_len(planes.drop_last());
        assert forall|c: int|
            0 <= c < planes.len() implies spec_min_plane_len(planes) <= (
        #[trigger] planes[c]).len() by {
            if c < planes.len() - 1 {
                assert(planes.drop_last()[c] == planes[c]);
            }
        }
        let rest = spec_min_plane_len(planes.drop_last());
        if planes.last().len() < rest {
            assert(planes[planes.len() - 1].len() == spec_min_plane_len(planes));
        } else {
            let w = choose|c: int|
                0 <= c < planes.drop_last().len() && rest == (#[trigger] planes.drop_last()[
                    c
                ]).len();
            assert(planes[w] == planes.drop_last()[w]);
        }
    }
}

/// Interleave per-channel planes into one flat buffer: frame by frame, one
/// sample from every plane in channel order, stopping at the end of the
/// shortest plane. This is how a planar decoded frame becomes the flat
/// stream a sink pulls.
pub fn interleave_planes<T: Copy>(planes: &Vec<Vec<T>>) -> (r: Vec<T>)
    ensures
        r@.len() == spec_min_plane_len(planes@.map_values(|p: Vec<T>| p@)) * planes@.len(),
        forall|c: int, i: int|
            0 <= c < planes@.len() && 0 <= i < spec_min_plane_len(
                planes@.map_values(|p: Vec<T>| p@),
            ) ==> r@[i * planes@.len() + c] == planes@[c]@[i],
{
    let ghost views = planes@.map_values(|p: Vec<T>| p@);
    let channels = planes.len();
    if channels == 0 {
        let r: Vec<T> = Vec::new();
        return r;
    }
    proof {
        lemma_min_plane_len(views);
    }
    let mut frames = planes[0].len();
    proof {
        assert(views[0] == planes@[0]@);
    }
    let mut c: usize = 1;
    while c < channels
        invariant
            1 <= c <= channels,
            channels == planes@.len(),
            views == planes@.map_values(|p: Vec<T>| p@),
            forall|c2: int| 0 <= c2 < c ==> frames <= (#[trigger] views[c2]).len(),
            exists|c2: int| 0 <= c2 < c && frames == (#[trigger] views[c2]).len(),
        decreases channels - c,
    {
        let plane_len = planes[c].len();
        proof {
            assert(views[c as int] == planes@[c as int]@);
        }
        if plane_len < frames {
            frames = plane_len;
        }
        c += 1;
    }
    proof {
        let m = spec_min_plane_len(views);
        let w = choose|c2: int| 0 <= c2 < channels && frames == (#[trigger] views[c2]).len();
        let wm = choose|c2: int| 0 <= c2 < channels && m == (#[trigger] views[c2]).len();
        assert(frames <= views[wm].len());
        assert(m <= views[w].len());
        assert(frames == spec_min_plane_len(views));
    }
    let mut r: Vec<T> = Vec::new();
    let mut i: usize = 0;
    while i < frames
        invariant
            i <= frames,
            channels == planes@.len(),
            channels >= 1,
            views == planes@.map_values(|p: Vec<T>| p@),
            frames == spec_min_plane_len(views),
            forall|c2: int| 0 <= c2 < channels ==> frames <= (#[trigger] views[c2]).len(),
            r@.len() == i * channels,
            forall|c2: int, i2: int|
                0 <= c2 < channels && 0 <= i2 < i ==> r@[i2 * channels + c2] == #[trigger] views[c2][i2],
        decreases frames - i,
    {
        let mut c: usize = 0;
        while c < channels
            invariant
                c <= channels,
                i < frames,
                channels == planes@.len(),
                channels >= 1,
                views == planes@.map_values(|p: Vec<T>| p@),
                frames == spec_min_plane_len(views),
                forall|c2: int| 0 <= c2 < channels ==> frames <= (#[trigger] views[c2]).len(),
                r@.len() == i * channels + c,
                forall|c2: int, i2: int|
                    0 <= c2 < channels && 0 <= i2 < i ==> r@[i2 * channels + c2]
                        == #[trigger] views[c2][i2],
                forall|c2: int|
                    0 <= c2 < c ==> r@[i * channels + c2] == (#[trigger] views[c2])[i as int],
            decreases channels - c,
        {
            proof {
                assert(views[c as int] == planes@[c as int]@);
            }
            let sample = planes[c][i];
            r.push(sample);
            proof {
                assert forall|c2: int, i2: int|
                    0 <= c2 < channels && 0 <= i2 < i implies r@[i2 * channels + c2]
                    == #[trigger] views[c2][i2] by {
                    assert(i2 * channels + c2 < i * channels + c) by (nonlinear_arith)
                        requires
                            0 <= c2 < channels,
                            0 <= i2 < i,
                            0 <= c,
                    ;
                }
            }
            c += 1;
        }
        i += 1;
        proof {
            assert(r@.len() == (i - 1) * channels + channels);
            assert((i - 1) * channels + channels == i * channels) by (nonlinear_arith);
        }
    }
    proof {
        assert forall|c2: int, i2: int|
            0 <= c2 < channels && 0 <= i2 < frames implies r@[i2 * channels + c2]
            == planes@[c2]@[i2] by {
            assert(views[c2] == planes@[c2]@);
            assert(r@[i2 * channels + c2] == views[c2][i2]);
        }
    }
    r
}

/// The pull loop's state: which track is decoded, how many decoded samples
/// wait in the sample queue, and whether the stream has ended.
#[derive(Debug, Clone, Copy, PartialEq, Eq, Structural)]
pub struct PipelineState {
    /// The container track id whose packets are decoded; all others are
    /// skipped.
    pub track_id: u32,
    /// Samples decoded but not yet handed out.
    pub queued: usize,
    /// Set once the format reader ran out of packets or decoding hit an
    /// unrecoverable error; the stream then stays ended.
    pub finished: bool,
}

/// What decoding one packet of the selected track came to.
#[derive(Debug, Clone, Copy, PartialEq, Eq, Structural)]
pub enum DecodeOutcome {
    /// The packet decoded into this many interleaved samples.
    Samples(usize),
    /// A per-packet decode error: the packet is skipped, the stream goes on.
    Recoverable,
    /// A malformed container or unsupported feature: the stream ends.
    Fatal,
}

/// What the pull loop does next.
#[derive(Debug, Clone, Copy, PartialEq, Eq, Structural)]
pub enum PipelineAction {
    /// Hand the consumer the next queued sample.
    Emit,
    /// The queue is empty: request the next packet of the selected track.
    NeedPacket,
    /// The stream is over: every pull yields end-of-sequence.
    Done,
}

/// The pull decision for a state: drain the queue first; once it is empty,
/// either the stream is over or the next packet is needed. A new packet is
/// requested only on an empty queue.
pub open spec fn spec_poll(st: PipelineState) -> PipelineAction {
    if st.queued > 0 {
        PipelineAction::Emit
    } else if st.finished {
        PipelineAction::Done
    } else {
        PipelineAction::NeedPacket
    }
}

/// The state after decoding one packet: decoded samples fill the queue, a
/// recoverable error changes nothing (the packet is skipped), an
/// unrecoverable one ends the stream.
pub open spec fn spec_on_packet(st: PipelineState, outcome: DecodeOutcome) -> PipelineState {
    match outcome {
        DecodeOutcome::Samples(n) => PipelineState { queued: n, ..st },
        DecodeOutcome::Recoverable => st,
        DecodeOutcome::Fatal => PipelineState { finished: true, ..st },
    }
}

impl PipelineState {
    /// A fresh pull loop for the selected track: nothing queued, stream
    /// alive.
    pub fn new(track_id: u32) -> (st: Self)
        ensures
            st.track_id == track_id,
            st.queued == 0,
            !st.finished,
    {
        PipelineState { track_id, queued: 0, finished: false }
    }

    /// What the pull loop does next.
    pub fn poll(&self) -> (a: PipelineAction)
        ensures
            a == spec_poll(*self),
    {
        if self.queued > 0 {
            PipelineAction::Emit
        } else if self.finished {
            PipelineAction::Done
        } else {
            PipelineAction::NeedPacket
        }
    }

    /// Whether a demuxed packet belongs to the selected track; packets of
    /// other tracks are skipped transparently, without touching the state.
    pub fn wants_packet(&self, packet_track_id: u32) -> (r: bool)
        ensures
            r == (packet_track_id == self.track_id),
    {
        packet_track_id == self.track_id
    }

    /// Account for the outcome of decoding one packet of the selected
    /// track. Only ever called on an empty queue (no over-fetching) while
    /// the stream is alive.
    pub fn on_packet(&mut self, outcome: DecodeOutcome)
        requires
            old(self).queued == 0,
            !old(self).finished,
        ensures
            *final(self) == spec_on_packet(*old(self), outcome),
    {
        match outcome {
            DecodeOutcome::Samples(n) => {
                self.queued = n;
            }
            DecodeOutcome::Recoverable => {}
            DecodeOutcome::Fatal => {
                self.finished = true;
            }
        }
    }

    /// The format reader has no more packets for the track: the stream ends
    /// with an empty pull and no error.
    pub fn on_end_of_stream(&mut self)
        requires
            old(self).queued == 0,
            !old(self).finished,
        ensures
            *final(self) == (PipelineState { finished: true, ..*old(self) }),
    {
        self.finished = true;
    }

    /// One queued sample was handed out.
    pub fn on_emit(&mut self)
        requires
            old(self).queued > 0,
        ensures
            *final(self) == (PipelineState { queued: (old(self).queued - 1) as usize, ..*old(
                self,
            ) }),
    {
        self.queued = self.queued - 1;
    }
}

/// A new packet is requested only when the sample queue is empty: the
/// pipeline never over-fetches.
pub proof fn lemma_no_overfetch(st: PipelineState)
    requires
        spec_poll(st) == PipelineAction::NeedPacket,
    ensures
        st.queued == 0,
{
}

/// The selected track — and with it the channel count and sample rate a
/// sink reads once, before consuming samples — stays the same across every
/// pull-loop transition: no decode outcome changes it.
pub proof fn lemma_selected_track_constant(st: PipelineState, outcome: DecodeOutcome)
    ensures
        spec_on_packet(st, outcome).track_id == st.track_id,
{
}

/// A corrupted packet is skipped and the stream goes on: a recoverable
/// decode error leaves the state exactly as it was, so the next poll
/// requests the next packet rather than ending the stream.
pub proof fn lemma_recoverable_error_continues(st: PipelineState)
    requires
        st.queued == 0,
        !st.finished,
    ensures
        spec_on_packet(st, DecodeOutcome::Recoverable) == st,
        spec_poll(spec_on_packet(st, DecodeOutcome::Recoverable)) == PipelineAction::NeedPacket,
{
}

/// A corrupted container ends the stream with nothing in the queue: after
/// an unrecoverable decode error the poll is `Done` at once, so no partial
/// garbage sample is ever emitted.
pub proof fn lemma_fatal_error_emits_nothing(st: PipelineState)
    requires
        st.queued == 0,
        !st.finished,
    ensures
        spec_on_packet(st, DecodeOutcome::Fatal).finished,
        spec_on_packet(st, DecodeOutcome::Fatal).queued == 0,
        spec_poll(spec_on_packet(st, DecodeOutcome::Fatal)) == PipelineAction::Done,
{
}

} // verus!
