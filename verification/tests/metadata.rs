//! The metadata side: URL validation, resolver-output classification with
//! real JSON, format selection, the song queue, and control-message
//! dispatch.

use audiopipe::handler::{classify_button, classify_message, ButtonAction, MessageKind};
use audiopipe::player::{format_usable, quality_key, select_format, MediaFormat};
use audiopipe::song_queue::{
    process_entry, refetch_task, watch_url, EntryAction, FetchTask, QueueEntry, SongQueue,
    TaskPoll, YtdlpOutcome,
};
use audiopipe::yt_dlp::{
    classify_records, parse_and_classify, validate_url, PlaylistMarker, YoutubeInfo,
    YoutubePlaylistEntry, YtdlpError, YtdlpShape,
};

fn media_format(quality: Option<i32>, vcodec: Option<&str>, acodec: Option<&str>) -> MediaFormat {
    MediaFormat {
        format_note: None,
        quality,
        vcodec: vcodec.map(str::to_owned),
        acodec: acodec.map(str::to_owned),
        video_ext: "none".to_owned(),
        audio_ext: "webm".to_owned(),
        ext: "webm".to_owned(),
        url: "https://media.example/stream".to_owned(),
    }
}

fn info(id: &str, title: &str) -> YoutubeInfo {
    YoutubeInfo {
        id: id.to_owned(),
        title: title.to_owned(),
        description: None,
        channel: "channel".to_owned(),
        channel_url: "https://channel.example".to_owned(),
        duration: 180,
        playlist: None,
        thumbnail: "https://thumb.example".to_owned(),
        formats: Vec::new(),
    }
}

fn playlist_entry(id: &str, title: &str) -> YoutubePlaylistEntry {
    YoutubePlaylistEntry {
        id: id.to_owned(),
        title: title.to_owned(),
        description: None,
        channel: "channel".to_owned(),
        channel_url: "https://channel.example".to_owned(),
        duration: 200,
        playlist: Some("mix".to_owned()),
    }
}

#[test]
fn url_validation_rejects_flag_like_input() {
    assert!(validate_url("https://www.youtube.com/watch?v=abc"));
    assert!(validate_url("x"));
    assert!(!validate_url(""));
    assert!(!validate_url("-rf"));
    assert!(!validate_url("--help"));
}

#[test]
fn record_classification_is_exact() {
    assert_eq!(classify_records(0, false, PlaylistMarker::Missing), Ok(YtdlpShape::EmptyPlaylist));
    assert_eq!(classify_records(1, false, PlaylistMarker::Present), Err(YtdlpError::NotAnObject));
    assert_eq!(classify_records(2, true, PlaylistMarker::Present), Ok(YtdlpShape::Playlist));
    assert_eq!(classify_records(1, true, PlaylistMarker::Null), Ok(YtdlpShape::Single));
    assert_eq!(classify_records(1, true, PlaylistMarker::Missing), Ok(YtdlpShape::Single));
}

#[test]
fn resolver_output_classifies_single_track() {
    let lines = vec![r#"{"id":"abc","title":"A Song","playlist":null}"#.to_owned()];
    let (shape, records) = parse_and_classify(&lines).expect("classification failed");
    assert_eq!(shape, YtdlpShape::Single);
    assert_eq!(records.len(), 1);
    assert_eq!(records[0].get("id").and_then(|v| v.as_str()), Some("abc"));
}

#[test]
fn resolver_output_classifies_playlist() {
    let lines = vec![
        r#"{"id":"a","playlist":"mix"}"#.to_owned(),
        r#"{"id":"b","playlist":"mix"}"#.to_owned(),
    ];
    let (shape, records) = parse_and_classify(&lines).expect("classification failed");
    assert_eq!(shape, YtdlpShape::Playlist);
    assert_eq!(records.len(), 2);
}

#[test]
fn resolver_output_classifies_empty_and_malformed() {
    let empty: Vec<String> = Vec::new();
    let (shape, records) = parse_and_classify(&empty).expect("classification failed");
    assert_eq!(shape, YtdlpShape::EmptyPlaylist);
    assert!(records.is_empty());

    let broken = vec![r#"{"id":"a""#.to_owned()];
    assert_eq!(parse_and_classify(&broken), Err(YtdlpError::ParseFailed));

    let scalar = vec!["42".to_owned()];
    assert_eq!(parse_and_classify(&scalar), Err(YtdlpError::NotAnObject));
}

#[test]
fn format_selection_picks_best_audio_only_candidate() {
    let formats = vec![
        media_format(Some(9), Some("vp9"), Some("opus")),  // has video: unusable
        media_format(Some(3), None, Some("opus")),
        media_format(Some(7), Some("none"), Some("opus")),
        media_format(Some(5), None, Some("mp4a")),
    ];
    assert_eq!(select_format(&formats), Some(2));
}

#[test]
fn format_selection_breaks_ties_toward_later_candidate() {
    let formats = vec![
        media_format(Some(7), None, Some("opus")),
        media_format(Some(7), None, Some("mp4a")),
        media_format(Some(6), None, Some("aac")),
    ];
    assert_eq!(select_format(&formats), Some(1));
}

#[test]
fn format_selection_ranks_missing_quality_lowest() {
    let formats = vec![
        media_format(None, None, Some("opus")),
        media_format(Some(-9), None, Some("mp4a")),
    ];
    assert_eq!(select_format(&formats), Some(1));
    assert_eq!(quality_key(&formats[0]), -10);
    assert_eq!(quality_key(&formats[1]), -9);
}

#[test]
fn format_selection_abandons_without_usable_candidate() {
    let no_audio = vec![
        media_format(Some(9), Some("vp9"), None),
        media_format(Some(9), None, Some("none")),
        media_format(Some(9), Some("av1"), Some("opus")),
    ];
    assert_eq!(select_format(&no_audio), None);
    assert!(!format_usable(&no_audio[0]));
    assert!(!format_usable(&no_audio[1]));
    assert!(!format_usable(&no_audio[2]));
    assert!(format_usable(&media_format(None, Some("none"), Some("opus"))));
}

#[test]
fn queue_pops_only_resolved_front_entries() {
    let mut queue = SongQueue::new();
    // Empty queue: nothing to play.
    assert!(matches!(queue.try_pop(), Some(None)));
    // A fetch still under way at the front: not ready.
    queue.push_task(0, "https://one.example".to_owned());
    assert!(queue.try_pop().is_none());
    assert_eq!(queue.iter().len(), 1);
    match queue.iter().front() {
        Some(QueueEntry::Fetching(task)) => assert_eq!(task.url(), "https://one.example"),
        other => panic!("unexpected front entry: {:?}", other),
    }
    // A resolved front entry is popped.
    let mut queue = SongQueue::new();
    queue.queue.push_back(QueueEntry::Fetched(info("abc", "A Song")));
    queue.push_task(1, "https://two.example".to_owned());
    match queue.try_pop() {
        Some(Some(popped)) => assert_eq!(popped.id, "abc"),
        other => panic!("unexpected pop result: {:?}", other),
    }
    assert_eq!(queue.iter().len(), 1);
}

#[test]
fn queue_processing_settles_finished_fetches() {
    let pending = QueueEntry::Fetching(FetchTask { url: "u".to_owned(), task: 0 });
    assert!(matches!(process_entry(&pending, TaskPoll::Pending), EntryAction::Keep));
    let resolved = process_entry(
        &pending,
        TaskPoll::Finished(YtdlpOutcome::Single(info("abc", "A Song"))),
    );
    match resolved {
        EntryAction::Replace(i) => assert_eq!(i.id, "abc"),
        other => panic!("unexpected action: {:?}", other),
    }
    let expanded = process_entry(
        &pending,
        TaskPoll::Finished(YtdlpOutcome::Playlist(vec![
            playlist_entry("a", "First"),
            playlist_entry("b", "Second"),
        ])),
    );
    match expanded {
        EntryAction::Expand(list) => {
            assert_eq!(list.len(), 2);
            assert_eq!(list[0].id, "a");
        }
        other => panic!("unexpected action: {:?}", other),
    }
    assert!(matches!(
        process_entry(&pending, TaskPoll::Finished(YtdlpOutcome::Failed)),
        EntryAction::Drop
    ));
    let settled = QueueEntry::Fetched(info("abc", "A Song"));
    assert!(matches!(process_entry(&settled, TaskPoll::Pending), EntryAction::Keep));
}

#[test]
fn playlist_entries_expand_to_watch_urls() {
    assert_eq!(watch_url("abc123"), "https://www.youtube.com/watch?v=abc123");
    let refetch = refetch_task(&playlist_entry("xyz", "Third"), 42);
    assert_eq!(refetch.url(), "https://www.youtube.com/watch?v=xyz");
    assert_eq!(refetch.title(), "Third");
    assert_eq!(refetch.task, 42);
}

#[test]
fn control_messages_dispatch_by_tag() {
    assert_eq!(classify_message(&"yt".to_owned()), MessageKind::TrackRequest);
    assert_eq!(classify_message(&"btn".to_owned()), MessageKind::Button);
    assert_eq!(classify_message(&"volume".to_owned()), MessageKind::Volume);
    assert_eq!(classify_message(&"other".to_owned()), MessageKind::Unknown);
    assert_eq!(classify_button(&"pause".to_owned()), Some(ButtonAction::Pause));
    assert_eq!(classify_button(&"resume".to_owned()), Some(ButtonAction::Resume));
    assert_eq!(classify_button(&"skip".to_owned()), Some(ButtonAction::Skip));
    assert_eq!(classify_button(&"rewind".to_owned()), None);
}
