//! The song queue: an ordered list of entries that are either fully
//! resolved tracks or still-running metadata fetches. The playback side
//! pops resolved tracks off the front; the queue-processing side settles
//! finished fetches, expanding a playlist fetch into one refetch entry per
//! track.
//!
//! The fetch tasks themselves run on the embedder's executor; an entry
//! refers to its task by handle, and the processing step is driven with
//! each task's polled outcome.

use vstd::prelude::*;
use vstd::string::StringExecFns;

use std::collections::VecDeque;

use crate::yt_dlp::{YoutubeInfo, YoutubePlaylistEntry};

verus! {

/// Identifier of a fetch task on the embedder's executor.
pub type TaskHandle = usize;

/// A still-running first fetch of a URL's metadata.
#[derive(Debug)]
pub struct FetchTask {
    pub url: String,
    pub task: TaskHandle,
}

/// A still-running refetch of one playlist track's full metadata; the
/// title is already known from the playlist listing.
#[derive(Debug)]
pub struct RefetchTask {
    pub url: String,
    pub title: String,
    pub task: TaskHandle,
}

/// One queue position: a resolved track, or a fetch still under way.
#[derive(Debug)]
pub enum QueueEntry {
    Fetched(YoutubeInfo),
    Fetching(FetchTask),
    Refetching(RefetchTask),
}

/// The queue of tracks to play, front first.
#[derive(Debug, Default)]
pub struct SongQueue {
    pub queue: VecDeque<QueueEntry>,
}

impl FetchTask {
    /// The URL whose metadata is being fetched.
    pub fn url(&self) -> (r: &str)
        ensures
            r@ == self.url@,
    {
        self.url.as_str()
    }
}

impl RefetchTask {
    /// The URL whose metadata is being refetched.
    pub fn url(&self) -> (r: &str)
        ensures
            r@ == self.url@,
    {
        self.url.as_str()
    }

    /// The track title, known from the playlist listing.
    pub fn title(&self) -> (r: &str)
        ensures
            r@ == self.title@,
    {
        self.title.as_str()
    }
}

impl SongQueue {
    /// An empty queue.
    pub fn new() -> (r: Self)
        ensures
            r.queue@ == Seq::<QueueEntry>::empty(),
    {
        SongQueue { queue: VecDeque::new() }
    }

    /// Append a just-started fetch for `url` to the back of the queue.
    pub fn push_task(&mut self, task: TaskHandle, url: String)
        ensures
            final(self).queue@ == old(self).queue@.push(
                QueueEntry::Fetching(FetchTask { url, task }),
            ),
    {
        self.queue.push_back(QueueEntry::Fetching(FetchTask { url, task }));
    }

    /// Pop the front of the queue for playback. An empty queue yields
    /// `Some(None)`: nothing to play. A resolved front entry is removed and
    /// yielded. A front entry still fetching yields `None` — nothing is
    /// ready yet — and leaves the queue untouched.
    pub fn try_pop(&mut self) -> (r: Option<Option<YoutubeInfo>>)
        ensures
            old(self).queue@.len() == 0 ==> {
                &&& r matches Some(inner) && inner is None
                &&& final(self).queue@ == old(self).queue@
            },
            old(self).queue@.len() > 0 ==> match old(self).queue@[0] {
                QueueEntry::Fetched(info) => {
                    &&& r matches Some(inner) && inner matches Some(out) && out == info
                    &&& final(self).queue@ == old(self).queue@.subrange(
                        1,
                        old(self).queue@.len() as int,
                    )
                },
                _ => r is None && final(self).queue@ == old(self).queue@,
            },
    {
        let ghost prev = self.queue@;
        match self.queue.pop_front() {
            Option::None => Some(None),
            Option::Some(entry) => match entry {
                QueueEntry::Fetched(info) => Some(Some(info)),
                other => {
                    self.queue.push_front(other);
                    proof {
                        assert(self.queue@ =~= prev);
                    }
                    None
                }
            },
        }
    }

    /// The entries, front first.
    pub fn iter(&self) -> (r: &VecDeque<QueueEntry>)
        ensures
            r@ == self.queue@,
    {
        &self.queue
    }
}

/// What one resolver task came to, as polled by the queue-processing loop.
#[derive(Debug)]
pub enum YtdlpOutcome {
    /// The URL resolved to one track's metadata.
    Single(YoutubeInfo),
    /// The URL resolved to a playlist listing.
    Playlist(Vec<YoutubePlaylistEntry>),
    /// The fetch failed; the entry is dropped (and the failure logged).
    Failed,
}

/// The polled state of an entry's fetch task.
#[derive(Debug)]
pub enum TaskPoll {
    /// Still running: the entry stays as it is.
    Pending,
    /// Finished, with this outcome.
    Finished(YtdlpOutcome),
}

/// What the processing step does with one entry.
#[derive(Debug)]
pub enum EntryAction {
    /// Keep the entry unchanged.
    Keep,
    /// Replace the entry with this resolved track.
    Replace(YoutubeInfo),
    /// Replace the entry with one refetch entry per playlist track, in
    /// listing order.
    Expand(Vec<YoutubePlaylistEntry>),
    /// Remove the entry: its fetch failed.
    Drop,
}

/// The processing decision for one entry: resolved entries stay; a pending
/// fetch stays; a finished fetch becomes the resolved track, a playlist
/// expansion, or — on failure — a removal. A refetch never yields a
/// playlist.
pub open spec fn spec_process_entry(entry: QueueEntry, poll: TaskPoll) -> EntryAction {
    match entry {
        QueueEntry::Fetched(_) => EntryAction::Keep,
        QueueEntry::Fetching(_) => match poll {
            TaskPoll::Pending => EntryAction::Keep,
            TaskPoll::Finished(outcome) => match outcome {
                YtdlpOutcome::Single(info) => EntryAction::Replace(info),
                YtdlpOutcome::Playlist(list) => EntryAction::Expand(list),
                YtdlpOutcome::Failed => EntryAction::Drop,
            },
        },
        QueueEntry::Refetching(_) => match poll {
            TaskPoll::Pending => EntryAction::Keep,
            TaskPoll::Finished(outcome) => match outcome {
                YtdlpOutcome::Single(info) => EntryAction::Replace(info),
                _ => EntryAction::Drop,
            },
        },
    }
}

/// Decide what the queue-processing loop does with one entry, given its
/// task's polled state. A refetch task never resolves to a playlist (it was
/// started from a single playlist track), so that combination is excluded.
pub fn process_entry(entry: &QueueEntry, poll: TaskPoll) -> (r: EntryAction)
    requires
        !(entry is Refetching && (poll matches TaskPoll::Finished(
            YtdlpOutcome::Playlist(_),
        ))),
    ensures
        r == spec_process_entry(*entry, poll),
{
    match entry {
        QueueEntry::Fetched(_) => EntryAction::Keep,
        QueueEntry::Fetching(_) => match poll {
            TaskPoll::Pending => EntryAction::Keep,
            TaskPoll::Finished(outcome) => match outcome {
                YtdlpOutcome::Single(info) => EntryAction::Replace(info),
                YtdlpOutcome::Playlist(list) => EntryAction::Expand(list),
                YtdlpOutcome::Failed => EntryAction::Drop,
            },
        },
        QueueEntry::Refetching(_) => match poll {
            TaskPoll::Pending => EntryAction::Keep,
            TaskPoll::Finished(outcome) => match outcome {
                YtdlpOutcome::Single(info) => EntryAction::Replace(info),
                _ => EntryAction::Drop,
            },
        },
    }
}

/// The watch URL a playlist entry's track is refetched from: the track id
/// appended to the stable watch-page prefix.
pub fn watch_url(id: &str) -> (r: String)
    ensures
        r@ == "https://www.youtube.com/watch?v="@ + id@,
{
    let mut url: String = String::from_str("https://www.youtube.com/watch?v=");
    url.append(id);
    url
}

/// The refetch entry a playlist listing entry expands to: its watch URL,
/// its already-known title, and the handle of the refetch task the embedder
/// just started for it.
pub fn refetch_task(entry: &YoutubePlaylistEntry, task: TaskHandle) -> (r: RefetchTask)
    ensures
        r.url@ == "https://www.youtube.com/watch?v="@ + entry.id@,
        r.title == entry.title,
        r.task == task,
{
    RefetchTask { url: watch_url(entry.id.as_str()), title: entry.title.clone(), task }
}

} // verus!
