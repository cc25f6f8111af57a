//! A real decode session over a small in-memory PCM stream: the demuxer
//! and decoder run outside, while the library's track selection and pull
//! loop drive every step — the decoded sample count and metadata must
//! match the reference values of the constructed stream.

use std::collections::VecDeque;
use std::io::Cursor;

use audiopipe::pipeline::{
    channel_count, select_track, DecodeOutcome, PipelineAction, PipelineState, TrackDescriptor,
};
use audiopipe::registry::CODEC_ID_NULL;

/// A 16-bit little-endian stereo PCM WAV at 48 kHz with `frames` frames of
/// a small ramp signal.
fn wav_bytes(frames: usize) -> Vec<u8> {
    let data_len = (frames * 4) as u32;
    let mut out = Vec::new();
    out.extend_from_slice(b"RIFF");
    out.extend_from_slice(&(36 + data_len).to_le_bytes());
    out.extend_from_slice(b"WAVE");
    out.extend_from_slice(b"fmt ");
    out.extend_from_slice(&16u32.to_le_bytes());
    out.extend_from_slice(&1u16.to_le_bytes()); // PCM
    out.extend_from_slice(&2u16.to_le_bytes()); // stereo
    out.extend_from_slice(&48_000u32.to_le_bytes());
    out.extend_from_slice(&(48_000u32 * 4).to_le_bytes());
    out.extend_from_slice(&4u16.to_le_bytes());
    out.extend_from_slice(&16u16.to_le_bytes());
    out.extend_from_slice(b"data");
    out.extend_from_slice(&data_len.to_le_bytes());
    for i in 0..frames {
        let left = ((i % 128) as i16) * 16;
        let right = -left;
        out.extend_from_slice(&left.to_le_bytes());
        out.extend_from_slice(&right.to_le_bytes());
    }
    out
}

#[test]
fn pcm_stream_decodes_to_expected_sample_count() {
    let frames = 480;
    let stream = symphonia::core::io::MediaSourceStream::new(
        Box::new(symphonia::core::io::ReadOnlySource::new(Cursor::new(wav_bytes(frames)))),
        symphonia::core::io::MediaSourceStreamOptions::default(),
    );
    let probed = symphonia::default::get_probe()
        .format(
            &symphonia::core::probe::Hint::new(),
            stream,
            &symphonia::core::formats::FormatOptions::default(),
            &symphonia::core::meta::MetadataOptions::default(),
        )
        .expect("probe failed");
    let mut format = probed.format;

    let models: Vec<TrackDescriptor> = format
        .tracks()
        .iter()
        .map(|t| TrackDescriptor {
            id: t.id,
            codec_id: if t.codec_params.codec == symphonia::core::codecs::CODEC_TYPE_NULL {
                CODEC_ID_NULL
            } else {
                1
            },
            sample_rate: t.codec_params.sample_rate,
            channel_count: t.codec_params.channels.map(|c| c.count() as u16),
            channel_layout: None,
        })
        .collect();
    let index = select_track(&models).expect("no usable track");
    let track = &format.tracks()[index];
    let mut decoder = symphonia::default::get_codecs()
        .make(&track.codec_params, &symphonia::core::codecs::DecoderOptions::default())
        .expect("decoder construction failed");

    let mut state = PipelineState::new(track.id);
    let mut queue: VecDeque<f32> = VecDeque::new();
    let mut decoded_total = 0usize;
    let mut emitted = 0usize;
    loop {
        match state.poll() {
            PipelineAction::Emit => {
                state.on_emit();
                let sample = queue.pop_front().expect("queue length out of step");
                assert!(sample.abs() <= 1.0);
                emitted += 1;
            }
            PipelineAction::Done => break,
            PipelineAction::NeedPacket => match format.next_packet() {
                Ok(packet) => {
                    if !state.wants_packet(packet.track_id()) {
                        continue;
                    }
                    match decoder.decode(&packet) {
                        Ok(decoded) => {
                            let spec = *decoded.spec();
                            let mut buffer = symphonia::core::audio::SampleBuffer::<f32>::new(
                                decoded.capacity() as u64,
                                spec,
                            );
                            buffer.copy_interleaved_ref(decoded);
                            queue.extend(buffer.samples().iter().copied());
                            decoded_total += buffer.samples().len();
                            state.on_packet(DecodeOutcome::Samples(buffer.samples().len()));
                        }
                        Err(symphonia::core::errors::Error::DecodeError(_)) => {
                            state.on_packet(DecodeOutcome::Recoverable);
                        }
                        Err(_) => {
                            state.on_packet(DecodeOutcome::Fatal);
                        }
                    }
                }
                Err(_) => state.on_end_of_stream(),
            },
        }
    }

    // Every decoded sample was emitted, and the count matches the
    // constructed stream: frames times channels.
    assert_eq!(decoded_total, frames * 2);
    assert_eq!(emitted, decoded_total);
    // The exposed metadata matches the constructed stream.
    assert_eq!(channel_count(models[index].channel_count, models[index].channel_layout), Some(2));
    assert_eq!(models[index].sample_rate, Some(48_000));
}
