//! The error taxonomy: transport, probe/format, codec, native-bridge and
//! input-contract errors, each surfaced where the corresponding stage fails.

use vstd::prelude::*;

verus! {

/// An error surfaced by the prefetching byte source.
#[derive(Debug, Clone, PartialEq, Eq)]
pub enum StreamError {
    /// The background fetch failed and forwarded its fault; carried verbatim.
    Transport(String),
    /// The fetch side went away before delivering the bytes a read needed.
    Disconnected,
    /// A seek resolved to a position outside the resource.
    InvalidPosition,
}

/// An error surfaced by codec selection or packet decoding.
#[derive(Debug, Clone, PartialEq, Eq)]
pub enum CodecError {
    /// No registry entry matches the track's codec identifier.
    UnsupportedCodec(u32),
    /// The track reports no sample rate.
    SampleRateUnknown,
    /// The track reports no channel layout.
    ChannelLayoutUnknown,
    /// The track's channel layout has no decoder support.
    UnsupportedChannelLayout,
}

/// An error while setting a decode session up: probing found no usable
/// track, or the selected track's codec has no registry entry.
#[derive(Debug, Clone, PartialEq, Eq)]
pub enum SetupError {
    /// Every track of the probed format carries the "no codec" marker.
    NoTrackFound,
    /// The selected track's codec identifier is not registered.
    UnsupportedCodec(u32),
}

impl StreamError {
    /// A short description of the error, for logs: a transport fault
    /// carries its own message verbatim.
    pub fn describe(&self) -> (r: String)
        ensures
            self is Transport ==> r@ == self->Transport_0@,
            self is Disconnected ==> r@ == "fetch channel disconnected"@,
            self is InvalidPosition ==> r@ == "seek position out of range"@,
    {
        match self {
            StreamError::Transport(msg) => msg.clone(),
            StreamError::Disconnected => "fetch channel disconnected".to_owned(),
            StreamError::InvalidPosition => "seek position out of range".to_owned(),
        }
    }
}

} // verus!
