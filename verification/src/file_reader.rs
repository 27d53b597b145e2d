//! The document store: the lines of one file as they were last read, and the
//! rule by which a new look at the file is turned into a change.
//!
//! The store does not touch the disk. Whoever does hands it what a look at the
//! file showed, as a [`FileProbe`], and is told in return what changed, or that
//! the file has to be read. A file whose modification time is the one last
//! seen is never asked for again, and a file that is gone leaves the stored
//! lines as they are.

use crate::error::MorelError;
use crate::view_state::least;
use vstd::prelude::*;
use vstd::slice::slice_subrange;

verus! {

/// A modification time, in nanoseconds since the Unix epoch. All that is asked
/// of it is whether two of them are the same.
#[derive(Debug, Clone, Copy, PartialEq, Eq, Structural)]
pub struct Timestamp {
    pub nanos: i128,
}

/// What a reload found.
#[derive(Debug, Clone, Copy, PartialEq, Eq, Structural)]
pub enum ReloadResult {
    /// The file has not been written since it was last read.
    NoChange,
    /// The file has more lines than before.
    Appended,
    /// The file has fewer lines than before.
    Truncated,
    /// The file was written and has as many lines as before.
    Modified,
    /// The file is gone.
    Deleted,
}

/// How far a reload has come.
#[derive(Debug, Clone, Copy, PartialEq, Eq, Structural)]
pub enum ReloadStep {
    /// The reload is over, with this result.
    Finished(ReloadResult),
    /// The file was written since it was last read: read it, and hand in what
    /// it holds.
    ReadContent,
}

/// What one look at the file showed.
#[derive(Debug, Clone, PartialEq, Eq)]
pub enum FileProbe {
    /// There is no file at the path.
    Missing,
    /// Something is at the path, but its metadata cannot be had.
    NoMetadata,
    /// The file is there; only its modification time was looked at.
    Present { modified: Option<Timestamp> },
    /// The file is there and was read: its modification time and its lines.
    Read { modified: Option<Timestamp>, lines: Vec<String> },
    /// The file was to be read, and was no longer there.
    Vanished,
    /// The file is there, but reading it failed for the reason given.
    Unreadable { reason: String },
}

impl FileProbe {
    /// Whether this look found the file gone. A file of which nothing can be
    /// learnt, and one that is gone by the time it is read, are not told apart
    /// from one that was deleted.
    pub open spec fn file_gone(self) -> bool {
        self is Missing || self is NoMetadata || self is Vanished
    }
}

/// The mathematical content of a document store.
pub struct Document {
    /// The path of the file, as text.
    pub path: Seq<char>,
    /// The lines last read, first to last.
    pub lines: Seq<Seq<char>>,
    /// The modification time that the file had when it was last read, where the
    /// system told one.
    pub last_modified: Option<Timestamp>,
}

/// How a change from `old_count` lines to `new_count` lines is called. Only
/// the counts are compared: a rewrite that keeps the count is `Modified`,
/// whatever it did to the lines.
pub open spec fn classify(old_count: nat, new_count: nat) -> ReloadResult {
    if old_count < new_count {
        ReloadResult::Appended
    } else if old_count > new_count {
        ReloadResult::Truncated
    } else {
        ReloadResult::Modified
    }
}

impl Document {
    /// The lines from `start` on, `count` of them at most: the window is cut
    /// down to what the document holds.
    pub open spec fn window(self, start: nat, count: nat) -> Seq<Seq<char>> {
        self.lines.subrange(
            least(start, self.lines.len()) as int,
            least(start + count, self.lines.len()) as int,
        )
    }

    /// This document with new lines and a new modification time.
    pub open spec fn replaced(self, modified: Option<Timestamp>, lines: Seq<Seq<char>>) -> Document {
        Document { lines, last_modified: modified, ..self }
    }

    /// The document after a reload that was handed `probe`.
    pub open spec fn after_reload(self, probe: FileProbe) -> Document {
        match probe {
            FileProbe::Read { modified, lines } if modified != self.last_modified => self.replaced(
                modified,
                lines.deep_view(),
            ),
            _ => self,
        }
    }

    /// What a reload that was handed `probe` answers.
    pub open spec fn reload_answer(self, probe: FileProbe) -> Result<ReloadStep, MorelError> {
        match probe {
            FileProbe::Missing => Ok(ReloadStep::Finished(ReloadResult::Deleted)),
            FileProbe::NoMetadata => Ok(ReloadStep::Finished(ReloadResult::Deleted)),
            FileProbe::Vanished => Ok(ReloadStep::Finished(ReloadResult::Deleted)),
            FileProbe::Present { modified } => if modified == self.last_modified {
                Ok(ReloadStep::Finished(ReloadResult::NoChange))
            } else {
                Ok(ReloadStep::ReadContent)
            },
            FileProbe::Read { modified, lines } => if modified == self.last_modified {
                Ok(ReloadStep::Finished(ReloadResult::NoChange))
            } else {
                Ok(ReloadStep::Finished(classify(self.lines.len(), lines@.len())))
            },
            FileProbe::Unreadable { reason } => Err(MorelError::FileRead(reason)),
        }
    }
}

/// What opening a file gives: an error where there is no file or it cannot be
/// read, else the document with its lines and modification time.
pub open spec fn opened(
    path: String,
    exists: bool,
    content: Result<Vec<String>, String>,
    modified: Option<Timestamp>,
) -> Result<Document, MorelError> {
    if !exists {
        Err(MorelError::FileNotFound(path))
    } else {
        match content {
            Ok(lines) => Ok(
                Document { path: path@, lines: lines.deep_view(), last_modified: modified },
            ),
            Err(reason) => Err(MorelError::FileRead(reason)),
        }
    }
}

/// The lines of one file, as they were last read.
pub struct FileReader {
    path: String,
    content: Vec<String>,
    last_modified: Option<Timestamp>,
}

impl View for FileReader {
    type V = Document;

    closed spec fn view(&self) -> Document {
        Document {
            path: self.path@,
            lines: self.content.deep_view(),
            last_modified: self.last_modified,
        }
    }
}

/// Whether two modification times are the same; two unknown times count as the
/// same.
fn same_time(a: Option<Timestamp>, b: Option<Timestamp>) -> (same: bool)
    ensures
        same == (a == b),
{
    match (a, b) {
        (Some(x), Some(y)) => x.nanos == y.nanos,
        (None, None) => true,
        _ => false,
    }
}

impl FileReader {
    /// Opens the document at `path` from what a first look at the file showed:
    /// whether it exists, what reading it gave (its lines, or the reason why it
    /// could not be read), and its modification time. What `content` and
    /// `modified` are for a file that does not exist is of no account.
    pub fn new(
        path: String,
        exists: bool,
        content: Result<Vec<String>, String>,
        modified: Option<Timestamp>,
    ) -> (result: Result<Self, MorelError>)
        ensures
            match opened(path, exists, content, modified) {
                Ok(document) => result is Ok && result->Ok_0@ == document,
                Err(error) => result == Err::<Self, MorelError>(error),
            },
    {
        if !exists {
            return Err(MorelError::FileNotFound(path));
        }
        match content {
            Ok(lines) => Ok(Self { path, content: lines, last_modified: modified }),
            Err(reason) => Err(MorelError::FileRead(reason)),
        }
    }

    /// Takes in what a new look at the file showed.
    ///
    /// A file that is gone is reported as `Deleted`, and so is one whose
    /// metadata cannot be had and one that is gone by the time it is read. A
    /// file whose modification time is the one last seen is reported as
    /// `NoChange`. In all these cases the document stays as it is. A file with another modification time has to be read: for a
    /// probe without content the answer is `ReadContent`, and for one with
    /// content the lines and the time are taken over and the change is named by
    /// the two line counts. A failed read is an error, and keeps the document.
    pub fn reload(&mut self, probe: FileProbe) -> (result: Result<ReloadStep, MorelError>)
        ensures
            result == old(self)@.reload_answer(probe),
            final(self)@ == old(self)@.after_reload(probe),
            probe.file_gone() ==> result == Ok::<ReloadStep, MorelError>(
                ReloadStep::Finished(ReloadResult::Deleted),
            ) && final(self)@ == old(self)@,
            (probe matches FileProbe::Present { modified } && modified == old(self)@.last_modified)
                ==> result == Ok::<ReloadStep, MorelError>(
                ReloadStep::Finished(ReloadResult::NoChange),
            ) && final(self)@ == old(self)@,
            (probe matches FileProbe::Read { modified, .. } && modified == old(self)@.last_modified)
                ==> result == Ok::<ReloadStep, MorelError>(
                ReloadStep::Finished(ReloadResult::NoChange),
            ) && final(self)@ == old(self)@,
    {
        match probe {
            FileProbe::Missing => Ok(ReloadStep::Finished(ReloadResult::Deleted)),
            FileProbe::NoMetadata => Ok(ReloadStep::Finished(ReloadResult::Deleted)),
            FileProbe::Vanished => Ok(ReloadStep::Finished(ReloadResult::Deleted)),
            FileProbe::Present { modified } => {
                if same_time(modified, self.last_modified) {
                    Ok(ReloadStep::Finished(ReloadResult::NoChange))
                } else {
                    Ok(ReloadStep::ReadContent)
                }
            },
            FileProbe::Read { modified, lines } => {
                if same_time(modified, self.last_modified) {
                    return Ok(ReloadStep::Finished(ReloadResult::NoChange));
                }
                let old_count = self.content.len();
                let new_count = lines.len();
                let change = if old_count < new_count {
                    ReloadResult::Appended
                } else if old_count > new_count {
                    ReloadResult::Truncated
                } else {
                    ReloadResult::Modified
                };
                self.content = lines;
                self.last_modified = modified;
                Ok(ReloadStep::Finished(change))
            },
            FileProbe::Unreadable { reason } => Err(MorelError::FileRead(reason)),
        }
    }

    /// The lines from `start` on, `count` of them at most. The window is cut
    /// down to the lines there are: it is empty where `start` is at or past the
    /// end, and this never fails.
    pub fn get_lines(&self, start: usize, count: usize) -> (lines: &[String])
        ensures
            lines.deep_view() == self@.window(start as nat, count as nat),
            start >= self@.lines.len() ==> lines@.len() == 0,
            lines@.len() <= count,
    {
        let length = self.content.len();
        let first = if start < length {
            start
        } else {
            length
        };
        let end = if count < length - first {
            first + count
        } else {
            length
        };
        let lines = slice_subrange(self.content.as_slice(), first, end);
        proof {
            assert(lines.deep_view() =~= self@.window(start as nat, count as nat));
        }
        lines
    }

    /// The number of lines.
    pub fn total_lines(&self) -> (count: usize)
        ensures
            count == self@.lines.len(),
    {
        self.content.len()
    }

    /// The path of the file.
    pub fn path(&self) -> (path: &str)
        ensures
            path@ == self@.path,
    {
        self.path.as_str()
    }
}

/// A reload that sees the modification time last seen reports no change and
/// leaves the document as it is, lines and all, whether or not the probe came
/// with content.
pub proof fn lemma_unchanged_time_changes_nothing(document: Document, probe: FileProbe)
    requires
        (probe matches FileProbe::Present { modified } && modified == document.last_modified) || (
        probe matches FileProbe::Read { modified, .. } && modified == document.last_modified),
    ensures
        document.reload_answer(probe) == Ok::<ReloadStep, MorelError>(
            ReloadStep::Finished(ReloadResult::NoChange),
        ),
        document.after_reload(probe) == document,
{
}

/// A file that is found gone, in whichever way, is reported as deleted, and the
/// document keeps the lines it had.
pub proof fn lemma_gone_file_keeps_the_document(document: Document, probe: FileProbe)
    requires
        probe.file_gone(),
    ensures
        document.reload_answer(probe) == Ok::<ReloadStep, MorelError>(
            ReloadStep::Finished(ReloadResult::Deleted),
        ),
        document.after_reload(probe) == document,
{
}

/// The lines of a document change in a reload only where the reload names a
/// change of content: in every other case they are what they were.
pub proof fn lemma_lines_change_only_with_content(document: Document, probe: FileProbe)
    ensures
        document.after_reload(probe).path == document.path,
        !(document.reload_answer(probe) matches Ok(ReloadStep::Finished(change)) && (change
            == ReloadResult::Appended || change == ReloadResult::Truncated || change
            == ReloadResult::Modified)) ==> document.after_reload(probe) == document,
{
}

/// A window that starts at or past the end of the document is empty, and no
/// window is longer than asked for or reaches past the end.
pub proof fn lemma_window_bounds(document: Document, start: nat, count: nat)
    ensures
        start >= document.lines.len() ==> document.window(start, count).len() == 0,
        document.window(start, count).len() <= count,
        document.window(start, count).len() <= document.lines.len(),
        start + count <= document.lines.len() ==> document.window(start, count).len() == count,
{
}

} // verus!
