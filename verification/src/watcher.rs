//! The change detector: from a batch of raw file-system events to one
//! classified change of the watched file.
//!
//! The watch itself lives outside. Once per turn of the loop its mailbox is
//! looked into without waiting, and what was found there is handed to
//! [`FileWatcher::check_for_changes`] as a [`Delivery`]. Events on other files
//! of the watched directory are passed over, and of the events on the watched
//! file a removal counts before a creation, and a creation before a
//! modification.

use crate::error::MorelError;
use vstd::prelude::*;

verus! {

/// The window over which a burst of raw events is gathered into one batch, in
/// milliseconds.
pub const DEBOUNCE_MILLIS: u64 = 100;

/// A classified change of the watched file.
#[derive(Debug, Clone, Copy, PartialEq, Eq, Structural)]
pub enum FileEvent {
    NoChange,
    Modified,
    Deleted,
    Created,
}

/// The kind of a raw file-system event.
#[derive(Debug, Clone, Copy, PartialEq, Eq, Structural)]
pub enum WatchKind {
    /// An event of unknown kind.
    Any,
    /// The file was opened, read or closed.
    Access,
    Create,
    Modify,
    Remove,
    /// An event of a kind that says nothing of the file's content.
    Other,
}

/// A path that a raw event names: as the event gave it, and in canonical form
/// where the path could be resolved.
#[derive(Debug, Clone, PartialEq, Eq)]
pub struct WatchPath {
    pub raw: String,
    pub canonical: Option<String>,
}

/// A raw file-system event: its kind and the paths it is about.
#[derive(Debug, Clone, PartialEq, Eq)]
pub struct WatchEvent {
    pub kind: WatchKind,
    pub paths: Vec<WatchPath>,
}

/// What a look into the watch's mailbox found.
#[derive(Debug, Clone, PartialEq, Eq)]
pub enum Delivery {
    /// No batch is waiting.
    Empty,
    /// The watch has shut down.
    Disconnected,
    /// The watch reported errors in place of events.
    Failed,
    /// The events of one debounce window.
    Batch(Vec<WatchEvent>),
}

impl WatchPath {
    /// Whether this path is the watched one: as given, or once resolved.
    pub open spec fn names(self, watched: Seq<char>) -> bool {
        self.raw@ == watched || (self.canonical matches Some(resolved) && resolved@ == watched)
    }
}

impl WatchEvent {
    /// Whether this event is about the watched path: one of its paths names it.
    pub open spec fn concerns(self, watched: Seq<char>) -> bool {
        exists|i: int| 0 <= i < self.paths@.len() && (#[trigger] self.paths@[i]).names(watched)
    }
}

/// What a single event of the given kind says of the file. An access and an
/// event of unknown kind are taken for a modification.
pub open spec fn signal_of(kind: WatchKind) -> FileEvent {
    match kind {
        WatchKind::Remove => FileEvent::Deleted,
        WatchKind::Create => FileEvent::Created,
        WatchKind::Modify => FileEvent::Modified,
        WatchKind::Access => FileEvent::Modified,
        WatchKind::Any => FileEvent::Modified,
        WatchKind::Other => FileEvent::NoChange,
    }
}

/// Whether some event among the first `count` of the batch is about the
/// watched path and says `signal` of it.
pub open spec fn reports_within(
    events: Seq<WatchEvent>,
    count: int,
    watched: Seq<char>,
    signal: FileEvent,
) -> bool
    recommends
        0 <= count <= events.len(),
{
    exists|i: int|
        0 <= i < count && (#[trigger] events[i]).concerns(watched) && signal_of(events[i].kind)
            == signal
}

/// Whether some event of the batch is about the watched path and says `signal`
/// of it.
pub open spec fn reports(events: Seq<WatchEvent>, watched: Seq<char>, signal: FileEvent) -> bool {
    reports_within(events, events.len() as int, watched, signal)
}

/// The change that a batch of events amounts to for the watched path: a
/// removal if there is one, else a creation if there is one, else a
/// modification if there is one, else no change.
pub open spec fn classify_batch(events: Seq<WatchEvent>, watched: Seq<char>) -> FileEvent {
    if reports(events, watched, FileEvent::Deleted) {
        FileEvent::Deleted
    } else if reports(events, watched, FileEvent::Created) {
        FileEvent::Created
    } else if reports(events, watched, FileEvent::Modified) {
        FileEvent::Modified
    } else {
        FileEvent::NoChange
    }
}

/// The change that a look into the mailbox amounts to: that of the batch where
/// there is one, and no change where the mailbox was empty, the watch has shut
/// down or it reported errors.
pub open spec fn change_in(delivery: Delivery, watched: Seq<char>) -> FileEvent {
    match delivery {
        Delivery::Batch(events) => classify_batch(events@, watched),
        _ => FileEvent::NoChange,
    }
}

/// The path to put the watch on: the directory that holds the watched file
/// where the watched path is a file with a parent, else the watched path
/// itself.
pub open spec fn watch_target_of(watched: Seq<char>, is_file: bool, parent: Option<Seq<char>>) -> Seq<
    char,
> {
    match parent {
        Some(directory) if is_file => directory,
        _ => watched,
    }
}

/// Whether `path` names the watched path.
fn path_names(path: &WatchPath, watched: &String) -> (found: bool)
    ensures
        found == path.names(watched@),
{
    if path.raw == *watched {
        return true;
    }
    match &path.canonical {
        Some(resolved) => *resolved == *watched,
        None => false,
    }
}

/// Whether `event` is about the watched path.
fn event_concerns(event: &WatchEvent, watched: &String) -> (found: bool)
    ensures
        found == event.concerns(watched@),
{
    let mut i: usize = 0;
    while i < event.paths.len()
        invariant
            0 <= i <= event.paths@.len(),
            forall|j: int| 0 <= j < i ==> !(#[trigger] event.paths@[j]).names(watched@),
        decreases event.paths.len() - i,
    {
        if path_names(&event.paths[i], watched) {
            return true;
        }
        i = i + 1;
    }
    false
}

/// The change detector for one path.
pub struct FileWatcher {
    watched_path: String,
}

impl View for FileWatcher {
    type V = Seq<char>;

    /// The watched path.
    closed spec fn view(&self) -> Seq<char> {
        self.watched_path@
    }
}

impl FileWatcher {
    /// A detector for the file at `path`. The watched path is the canonical
    /// form of `path` where there is one, else `path` as it stands.
    pub fn new(path: String, canonical: Option<String>) -> (watcher: Self)
        ensures
            watcher@ == match canonical {
                Some(resolved) => resolved@,
                None => path@,
            },
    {
        match canonical {
            Some(resolved) => Self { watched_path: resolved },
            None => Self { watched_path: path },
        }
    }

    /// The watched path.
    pub fn watched_path(&self) -> (path: &str)
        ensures
            path@ == self@,
    {
        self.watched_path.as_str()
    }

    /// The path to put the watch on, given whether the watched path is a file
    /// and what its parent directory is: the directory of a file is watched,
    /// not the file, so that a file replaced by a new one is still seen.
    pub fn watch_target<'a>(&'a self, is_file: bool, parent: Option<&'a str>) -> (target: &'a str)
        ensures
            target@ == watch_target_of(
                self@,
                is_file,
                match parent {
                    Some(directory) => Some(directory@),
                    None => None,
                },
            ),
    {
        match parent {
            Some(directory) => {
                if is_file {
                    directory
                } else {
                    self.watched_path.as_str()
                }
            },
            None => self.watched_path.as_str(),
        }
    }

    /// Classifies what a look into the mailbox found. This never fails: an empty
    /// mailbox, a watch that has shut down and a watch that reported errors are
    /// all no change.
    pub fn check_for_changes(&self, delivery: Delivery) -> (result: Result<FileEvent, MorelError>)
        ensures
            result == Ok::<FileEvent, MorelError>(change_in(delivery, self@)),
    {
        match delivery {
            Delivery::Batch(events) => Ok(self.classify(&events)),
            Delivery::Empty => Ok(FileEvent::NoChange),
            Delivery::Disconnected => Ok(FileEvent::NoChange),
            Delivery::Failed => Ok(FileEvent::NoChange),
        }
    }

    /// Classifies one batch of events.
    pub fn classify(&self, events: &Vec<WatchEvent>) -> (change: FileEvent)
        ensures
            change == classify_batch(events@, self@),
    {
        let mut was_modified = false;
        let mut was_deleted = false;
        let mut was_created = false;
        let mut i: usize = 0;
        while i < events.len()
            invariant
                0 <= i <= events@.len(),
                was_deleted == reports_within(events@, i as int, self@, FileEvent::Deleted),
                was_created == reports_within(events@, i as int, self@, FileEvent::Created),
                was_modified == reports_within(events@, i as int, self@, FileEvent::Modified),
            decreases events.len() - i,
        {
            let event = &events[i];
            let ours = event_concerns(event, &self.watched_path);
            proof {
                lemma_reports_one_more(events@, i as int, self@, FileEvent::Deleted);
                lemma_reports_one_more(events@, i as int, self@, FileEvent::Created);
                lemma_reports_one_more(events@, i as int, self@, FileEvent::Modified);
            }
            if ours {
                match event.kind {
                    WatchKind::Modify => {
                        was_modified = true;
                    },
                    WatchKind::Remove => {
                        was_deleted = true;
                    },
                    WatchKind::Create => {
                        was_created = true;
                    },
                    WatchKind::Access => {
                        was_modified = true;
                    },
                    WatchKind::Any => {
                        was_modified = true;
                    },
                    WatchKind::Other => {},
                }
            }
            i = i + 1;
        }
        if was_deleted {
            FileEvent::Deleted
        } else if was_created {
            FileEvent::Created
        } else if was_modified {
            FileEvent::Modified
        } else {
            FileEvent::NoChange
        }
    }
}

/// A signal is reported within the first `count + 1` events if it is reported
/// within the first `count`, or by the event after them.
proof fn lemma_reports_one_more(
    events: Seq<WatchEvent>,
    count: int,
    watched: Seq<char>,
    signal: FileEvent,
)
    requires
        0 <= count < events.len(),
    ensures
        reports_within(events, count + 1, watched, signal) == (reports_within(
            events,
            count,
            watched,
            signal,
        ) || (events[count].concerns(watched) && signal_of(events[count].kind) == signal)),
{
    if reports_within(events, count + 1, watched, signal) {
        let i = choose|i: int|
            0 <= i < count + 1 && (#[trigger] events[i]).concerns(watched)
                && signal_of(events[i].kind) == signal;
        if i < count {
            assert(reports_within(events, count, watched, signal));
        }
    }
    if reports_within(events, count, watched, signal) {
        let i = choose|i: int|
            0 <= i < count && (#[trigger] events[i]).concerns(watched)
                && signal_of(events[i].kind) == signal;
        assert(events[i].concerns(watched));
    }
    if events[count].concerns(watched) && signal_of(events[count].kind) == signal {
        assert(reports_within(events, count + 1, watched, signal));
    }
}

/// The rank of a change: a deletion outranks a creation, a creation a
/// modification, and a modification no change.
pub open spec fn rank(event: FileEvent) -> nat {
    match event {
        FileEvent::Deleted => 3,
        FileEvent::Created => 2,
        FileEvent::Modified => 1,
        FileEvent::NoChange => 0,
    }
}

/// Of two changes, the one of higher rank.
pub open spec fn outranking(a: FileEvent, b: FileEvent) -> FileEvent {
    if rank(a) >= rank(b) {
        a
    } else {
        b
    }
}

/// A signal is reported by two batches put together if one of the two reports
/// it.
pub proof fn lemma_reports_in_either_part(
    first: Seq<WatchEvent>,
    second: Seq<WatchEvent>,
    watched: Seq<char>,
    signal: FileEvent,
)
    ensures
        reports(first + second, watched, signal) == (reports(first, watched, signal) || reports(
            second,
            watched,
            signal,
        )),
{
    let both = first + second;
    if reports(both, watched, signal) {
        let i = choose|i: int|
            0 <= i < both.len() && (#[trigger] both[i]).concerns(watched)
                && signal_of(both[i].kind) == signal;
        if i < first.len() {
            assert(both[i] == first[i]);
            assert(first[i].concerns(watched));
        } else {
            assert(both[i] == second[i - first.len()]);
            assert(second[i - first.len()].concerns(watched));
        }
    }
    if reports(first, watched, signal) {
        let i = choose|i: int|
            0 <= i < first.len() && (#[trigger] first[i]).concerns(watched)
                && signal_of(first[i].kind) == signal;
        assert(both[i] == first[i]);
        assert(both[i].concerns(watched));
    }
    if reports(second, watched, signal) {
        let i = choose|i: int|
            0 <= i < second.len() && (#[trigger] second[i]).concerns(watched)
                && signal_of(second[i].kind) == signal;
        assert(both[i + first.len()] == second[i]);
        assert(both[i + first.len()].concerns(watched));
    }
}

/// A batch is classified by rank and not by order: two batches put together
/// amount to the higher-ranking of what each amounts to, whichever comes
/// first.
pub proof fn lemma_batch_is_classified_by_rank(
    first: Seq<WatchEvent>,
    second: Seq<WatchEvent>,
    watched: Seq<char>,
)
    ensures
        classify_batch(first + second, watched) == outranking(
            classify_batch(first, watched),
            classify_batch(second, watched),
        ),
        classify_batch(first + second, watched) == classify_batch(second + first, watched),
{
    lemma_reports_in_either_part(first, second, watched, FileEvent::Deleted);
    lemma_reports_in_either_part(first, second, watched, FileEvent::Created);
    lemma_reports_in_either_part(first, second, watched, FileEvent::Modified);
    lemma_reports_in_either_part(second, first, watched, FileEvent::Deleted);
    lemma_reports_in_either_part(second, first, watched, FileEvent::Created);
    lemma_reports_in_either_part(second, first, watched, FileEvent::Modified);
}

/// A removal of the watched file counts before everything else in its batch,
/// a creation before a modification, and a batch with no event on the watched
/// file is no change.
pub proof fn lemma_batch_priority(events: Seq<WatchEvent>, watched: Seq<char>)
    ensures
        reports(events, watched, FileEvent::Deleted) ==> classify_batch(events, watched)
            == FileEvent::Deleted,
        !reports(events, watched, FileEvent::Deleted) && reports(
            events,
            watched,
            FileEvent::Created,
        ) ==> classify_batch(events, watched) == FileEvent::Created,
        (forall|i: int| 0 <= i < events.len() ==> !(#[trigger] events[i]).concerns(watched))
            ==> classify_batch(events, watched) == FileEvent::NoChange,
{
}

} // verus!
