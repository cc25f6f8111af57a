//! The playback-metadata resolver's data and decisions: the structured
//! metadata one resolved URL yields, the guard on what may be handed to the
//! resolver subprocess, and the classification of its line-per-record JSON
//! output into a single track, a playlist, or an empty playlist.
//!
//! The subprocess itself runs outside; its captured output lines come here
//! to be parsed and classified.

use vstd::prelude::*;
use vstd::string::StringSliceAdditionalSpecFns;

use crate::player::MediaFormat;

verus! {

/// Metadata of one resolved track: identity, presentation fields, and the
/// candidate media formats the byte source can be opened on.
#[derive(Debug, Clone)]
pub struct YoutubeInfo {
    pub id: String,
    pub title: String,
    pub description: Option<String>,
    pub channel: String,
    pub channel_url: String,
    /// Track duration in seconds.
    pub duration: u32,
    pub playlist: Option<String>,
    pub thumbnail: String,
    pub formats: Vec<MediaFormat>,
}

/// One entry of a flat playlist listing: enough to refetch the full
/// metadata of the track later.
#[derive(Debug, Clone)]
pub struct YoutubePlaylistEntry {
    pub id: String,
    pub title: String,
    pub description: Option<String>,
    pub channel: String,
    pub channel_url: String,
    /// Track duration in seconds.
    pub duration: u32,
    pub playlist: Option<String>,
}

/// What one resolver invocation yields: the metadata of a single track, or
/// the entries of a playlist.
#[derive(Debug, Clone)]
pub enum YtdlpResult {
    Single(YoutubeInfo),
    Playlist(Vec<YoutubePlaylistEntry>),
}

/// An error in handling resolver output.
#[derive(Debug, Clone, Copy, PartialEq, Eq, Structural)]
pub enum YtdlpError {
    /// An output line is not one well-formed JSON document.
    ParseFailed,
    /// The first output record is not a JSON object.
    NotAnObject,
}

/// Whether a URL may be handed to the resolver subprocess: it must be
/// nonempty and must not begin with `-` (the flag sigil).
pub open spec fn spec_url_accepted(url: Seq<u8>) -> bool {
    url.len() > 0 && url[0] != 45
}

/// Whether a URL may be handed to the resolver subprocess: it must be
/// nonempty and must not begin with `-`, which the subprocess would read as
/// a flag.
pub fn validate_url(url: &str) -> (r: bool)
    ensures
        r == spec_url_accepted(url.spec_bytes()),
{
    let bytes = url.as_bytes();
    if bytes.len() == 0 {
        return false;
    }
    bytes[0] != 45
}

/// The shape of one resolver invocation's output.
#[derive(Debug, Clone, Copy, PartialEq, Eq, Structural)]
pub enum YtdlpShape {
    /// No output records: an empty playlist.
    EmptyPlaylist,
    /// The records are playlist entries.
    Playlist,
    /// The single record is one track's full metadata.
    Single,
}

/// What the first output record's `playlist` field holds: nothing, an
/// explicit null, or a value.
#[derive(Debug, Clone, Copy, PartialEq, Eq, Structural)]
pub enum PlaylistMarker {
    Missing,
    Null,
    Present,
}

/// The classification a record set resolves to: no records is an empty
/// playlist; a first record that is no object is an error; otherwise a
/// non-null `playlist` field marks a playlist listing and anything else a
/// single track.
pub open spec fn spec_classify(
    n_records: int,
    first_is_object: bool,
    marker: PlaylistMarker,
) -> Result<YtdlpShape, YtdlpError> {
    if n_records == 0 {
        Result::Ok(YtdlpShape::EmptyPlaylist)
    } else if !first_is_object {
        Result::Err(YtdlpError::NotAnObject)
    } else if marker is Present {
        Result::Ok(YtdlpShape::Playlist)
    } else {
        Result::Ok(YtdlpShape::Single)
    }
}

/// Classify a resolver output of `n_records` records from what the first
/// record showed.
pub fn classify_records(n_records: usize, first_is_object: bool, marker: PlaylistMarker) -> (r:
    Result<YtdlpShape, YtdlpError>)
    ensures
        r == spec_classify(n_records as int, first_is_object, marker),
{
    if n_records == 0 {
        Ok(YtdlpShape::EmptyPlaylist)
    } else if !first_is_object {
        Err(YtdlpError::NotAnObject)
    } else {
        match marker {
            PlaylistMarker::Present => Ok(YtdlpShape::Playlist),
            _ => Ok(YtdlpShape::Single),
        }
    }
}

#[verifier::external_type_specification]
#[verifier::external_body]
pub struct ExJsonValue(serde_json::Value);

#[verifier::external_type_specification]
#[verifier::external_body]
pub struct ExJsonError(serde_json::Error);

/// Whether a text parses as one well-formed JSON document: a function of
/// the text alone.
pub uninterp spec fn spec_json_parses(text: Seq<char>) -> bool;

/// Relies on serde_json::from_str::<Value>: parses one JSON document from
/// the text; whether it succeeds depends on the text alone.
#[verifier::external_body]
fn parse_json_value(text: &str) -> (r: Result<serde_json::Value, serde_json::Error>)
    ensures
        r is Ok <==> spec_json_parses(text@),
{
    serde_json::from_str(text)
}

/// Relies on serde_json::Value::is_object: whether the value is a JSON
/// object.
#[verifier::external_body]
fn json_is_object(value: &serde_json::Value) -> bool {
    value.is_object()
}

/// Relies on serde_json::Value::get with a string key: the named field of
/// an object, or nothing when the field is absent or the value is no
/// object.
#[verifier::external_body]
fn json_get<'a>(value: &'a serde_json::Value, key: &str) -> Option<&'a serde_json::Value> {
    value.get(key)
}

/// Relies on serde_json::Value::is_null: whether the value is JSON null.
#[verifier::external_body]
fn json_is_null(value: &serde_json::Value) -> bool {
    value.is_null()
}

/// What a record's `playlist` field holds.
fn playlist_marker(record: &serde_json::Value) -> PlaylistMarker {
    match json_get(record, "playlist") {
        Option::None => PlaylistMarker::Missing,
        Option::Some(field) => {
            if json_is_null(field) {
                PlaylistMarker::Null
            } else {
                PlaylistMarker::Present
            }
        }
    }
}

/// Parse every output line of one resolver invocation and classify the
/// record set. Parsing fails — with `ParseFailed` — exactly when some line
/// is not one well-formed JSON document; with no lines at all the result is
/// an empty playlist; a first record that is no JSON object is
/// `NotAnObject`. On success the parsed records come back with the shape,
/// one per line, for the embedder to deserialize into `YoutubeInfo` or
/// `YoutubePlaylistEntry` values as the shape directs.
pub fn parse_and_classify(lines: &Vec<String>) -> (r: Result<
    (YtdlpShape, Vec<serde_json::Value>),
    YtdlpError,
>)
    ensures
        r is Err ==> (r->Err_0 is ParseFailed || r->Err_0 is NotAnObject),
        (r matches Err(e) && e is ParseFailed) <==> (exists|i: int|
            0 <= i < lines@.len() && !spec_json_parses(lines@[i]@)),
        r matches Ok(p) ==> {
            &&& p.1@.len() == lines@.len()
            &&& (p.0 is EmptyPlaylist <==> lines@.len() == 0)
        },
        lines@.len() == 0 ==> (r matches Ok(p) && p.0 is EmptyPlaylist),
{
    let mut records: Vec<serde_json::Value> = Vec::new();
    let mut i: usize = 0;
    while i < lines.len()
        invariant
            i <= lines@.len(),
            records@.len() == i,
            forall|j: int| 0 <= j < i ==> spec_json_parses(lines@[j]@),
        decreases lines@.len() - i,
    {
        match parse_json_value(lines[i].as_str()) {
            Ok(value) => {
                records.push(value);
            }
            Err(_) => {
                return Err(YtdlpError::ParseFailed);
            }
        }
        i += 1;
    }
    if records.len() == 0 {
        return Ok((YtdlpShape::EmptyPlaylist, records));
    }
    let first_is_object = json_is_object(&records[0]);
    let marker = playlist_marker(&records[0]);
    match classify_records(records.len(), first_is_object, marker) {
        Ok(shape) => Ok((shape, records)),
        Err(e) => Err(e),
    }
}

} // verus!
