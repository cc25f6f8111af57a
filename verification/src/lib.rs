//! A streaming audio pipeline: a prefetching, seekable byte source over
//! chunked range fetches, a pluggable codec registry, a pull-based decode
//! pipeline, and a resource-tracked bridge onto a native demuxer's
//! callback-driven custom I/O.

pub mod bridge;
pub mod errors;
pub mod handler;
pub mod http_stream;
pub mod pipeline;
pub mod player;
pub mod registry;
pub mod song_queue;
pub mod yt_dlp;
