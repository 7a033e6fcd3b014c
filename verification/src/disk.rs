//! A model of the file system, as far as the tasks of this library use it, and
//! what the tasks do to it.
//!
//! On the model every directory and every file can be created, and a text
//! that is written is written whole. Reading fails for a file that is missing
//! or locked, appending for a file that is missing.

use crate::error::{ConfigError, Failure, Fault};
use crate::file::begun;
use crate::task::{size, ActionView, EventView, Goal, OutcomeView, TaskView};
use crate::text::{
    lemma_lines_concat, lemma_plain_lines_concat, lemma_unlines_lines, lines_of, plain_lines, unlines,
};
use vstd::prelude::*;

verus! {

/// The directories and files of a disk, by their paths.
pub struct Disk {
    /// The directories that exist.
    pub directories: Set<Seq<char>>,
    /// The files that exist, each with its text.
    pub files: Map<Seq<char>, Seq<char>>,
    /// The files that may not be opened for reading.
    pub locked: Set<Seq<char>>,
}

impl Disk {
    /// The text of the file at `path`; that of a missing file is empty.
    pub open spec fn text(self, path: Seq<char>) -> Seq<char> {
        if self.files.dom().contains(path) {
            self.files[path]
        } else {
            Seq::empty()
        }
    }

    /// The disk after `action`, and the event that comes of it. Creating a
    /// file empties one that exists.
    pub open spec fn serve(self, action: ActionView) -> (Disk, EventView) {
        match action {
            ActionView::ProbeDirectory(p) => (
                self,
                if self.directories.contains(p) {
                    EventView::Present
                } else {
                    EventView::Absent
                },
            ),
            ActionView::CreateDirectory(p) => (
                Disk { directories: self.directories.insert(p), ..self },
                EventView::Completed,
            ),
            ActionView::ProbeFile(p) => (
                self,
                if self.files.dom().contains(p) {
                    EventView::Present
                } else {
                    EventView::Absent
                },
            ),
            ActionView::CreateFile(p) => (
                Disk { files: self.files.insert(p, Seq::empty()), ..self },
                EventView::Completed,
            ),
            ActionView::Scan(p) => (
                self,
                if !self.files.dom().contains(p) {
                    EventView::Refused(Failure::plain(Fault::NotFound))
                } else if self.locked.contains(p) {
                    EventView::Refused(Failure::plain(Fault::PermissionDenied))
                } else {
                    EventView::Text(self.files[p])
                },
            ),
            ActionView::Append(p, t) => if self.files.dom().contains(p) {
                (
                    Disk { files: self.files.insert(p, self.files[p] + t), ..self },
                    EventView::Written(size(t)),
                )
            } else {
                (self, EventView::Refused(Failure::plain(Fault::NotFound)))
            },
        }
    }

    /// The disk and the task after the task has run to its end, each of its
    /// actions performed on the disk.
    pub open spec fn run(self, task: TaskView) -> (Disk, TaskView)
        decreases task.remaining(),
    {
        match task.pending() {
            None => (self, task),
            Some(action) => {
                let (disk, event) = self.serve(action);
                disk.run(task.advanced(event))
            },
        }
    }
}

/// A run ends: the task that comes out of it has ended, and a task that had
/// ended leaves the disk as it was.
pub proof fn lemma_run_ends(disk: Disk, task: TaskView)
    ensures
        disk.run(task).1.finished(),
        task.finished() ==> disk.run(task) == (disk, task),
    decreases task.remaining(),
{
    match task.pending() {
        None => {},
        Some(action) => {
            let (next, event) = disk.serve(action);
            lemma_run_ends(next, task.advanced(event));
        },
    }
}

/// Making sure that the file exists succeeds and gives the path of the file.
/// A file that was there keeps its text. A second run changes nothing and
/// gives the same path.
pub proof fn lemma_create_twice(
    disk: Disk,
    home: Seq<char>,
    directory: Seq<char>,
    name: Seq<char>,
)
    ensures
        ({
            let task = begun(Some(home), directory, name, Goal::Create, Seq::empty());
            let (first, ended) = disk.run(task);
            let (second, again) = first.run(task);
            &&& ended.outcome() == Some(
                Ok::<OutcomeView, ConfigError>(OutcomeView::Path(task.file)),
            )
            &&& first.directories.contains(task.directory)
            &&& first.files.dom().contains(task.file)
            &&& first.text(task.file) == disk.text(task.file)
            &&& second == first
            &&& again.outcome() == ended.outcome()
        }),
{
    reveal_with_fuel(Disk::run, 5);
}

/// Checking changes nothing on the disk. It fails with `FileNotFound` for a
/// missing file and with `PermissionDenied` for a locked one, and succeeds for
/// any other.
pub proof fn lemma_check(disk: Disk, home: Seq<char>, directory: Seq<char>, name: Seq<char>)
    ensures
        ({
            let task = begun(Some(home), directory, name, Goal::Check, Seq::empty());
            let (after, ended) = disk.run(task);
            &&& after == disk
            &&& ended.outcome() == Some(
                if !disk.files.dom().contains(task.file) {
                    Err::<OutcomeView, ConfigError>(ConfigError::FileNotFound)
                } else if disk.locked.contains(task.file) {
                    Err(ConfigError::PermissionDenied)
                } else {
                    Ok(OutcomeView::Readable)
                },
            )
        }),
{
    reveal_with_fuel(Disk::run, 3);
}

/// Reading changes nothing on the disk and gives the lines of the text of
/// the file, where the file is there and not locked.
pub proof fn lemma_read(disk: Disk, home: Seq<char>, directory: Seq<char>, name: Seq<char>)
    ensures
        ({
            let task = begun(Some(home), directory, name, Goal::Read, Seq::empty());
            let (after, ended) = disk.run(task);
            &&& after == disk
            &&& ended.outcome() == Some(
                if !disk.files.dom().contains(task.file) {
                    Err::<OutcomeView, ConfigError>(ConfigError::FileNotFound)
                } else if disk.locked.contains(task.file) {
                    Err(ConfigError::PermissionDenied)
                } else {
                    Ok(OutcomeView::Lines(lines_of(disk.files[task.file])))
                },
            )
        }),
{
    reveal_with_fuel(Disk::run, 3);
}

/// Writing a text puts it behind what the file held, whether the file was
/// there or not, and leaves every other file as it was. It fails only for a
/// file that is locked.
pub proof fn lemma_write(
    disk: Disk,
    home: Seq<char>,
    directory: Seq<char>,
    name: Seq<char>,
    text: Seq<char>,
)
    ensures
        ({
            let task = begun(Some(home), directory, name, Goal::Write, text);
            let (after, ended) = disk.run(task);
            if disk.locked.contains(task.file) {
                &&& ended.outcome() == Some(
                    Err::<OutcomeView, ConfigError>(ConfigError::PermissionDenied),
                )
                &&& after.text(task.file) == disk.text(task.file)
            } else {
                &&& ended.outcome() == Some(Ok::<OutcomeView, ConfigError>(OutcomeView::Written))
                &&& after.files.dom().contains(task.file)
                &&& after.text(task.file) == disk.text(task.file) + text
            }
        }),
        ({
            let task = begun(Some(home), directory, name, Goal::Write, text);
            let after = disk.run(task).0;
            &&& after.locked == disk.locked
            &&& forall|other: Seq<char>|
                other != task.file ==> #[trigger] after.text(other) == disk.text(other)
        }),
{
    reveal_with_fuel(Disk::run, 7);
    let task = begun(Some(home), directory, name, Goal::Write, text);
    assert(Seq::<char>::empty() + text =~= text);
}

/// Appending puts the text behind what the file held. It does not create the
/// file: for a missing file it fails with `OpenFailed` and changes nothing.
pub proof fn lemma_append(
    disk: Disk,
    home: Seq<char>,
    directory: Seq<char>,
    name: Seq<char>,
    text: Seq<char>,
)
    ensures
        ({
            let task = begun(Some(home), directory, name, Goal::Append, text);
            let (after, ended) = disk.run(task);
            if disk.files.dom().contains(task.file) {
                &&& ended.outcome() == Some(Ok::<OutcomeView, ConfigError>(OutcomeView::Written))
                &&& after.text(task.file) == disk.text(task.file) + text
            } else {
                &&& ended.outcome() == Some(
                    Err::<OutcomeView, ConfigError>(
                        ConfigError::OpenFailed(Failure::plain(Fault::NotFound)),
                    ),
                )
                &&& after == disk
            }
        }),
{
    reveal_with_fuel(Disk::run, 3);
}

/// Appending after a check fails as the check does, and then changes nothing;
/// else it puts the text behind what the file held.
pub proof fn lemma_checked_append(
    disk: Disk,
    home: Seq<char>,
    directory: Seq<char>,
    name: Seq<char>,
    text: Seq<char>,
)
    ensures
        ({
            let task = begun(Some(home), directory, name, Goal::CheckedAppend, text);
            let (after, ended) = disk.run(task);
            if !disk.files.dom().contains(task.file) {
                &&& ended.outcome() == Some(
                    Err::<OutcomeView, ConfigError>(ConfigError::FileNotFound),
                )
                &&& after == disk
            } else if disk.locked.contains(task.file) {
                &&& ended.outcome() == Some(
                    Err::<OutcomeView, ConfigError>(ConfigError::PermissionDenied),
                )
                &&& after == disk
            } else {
                &&& ended.outcome() == Some(Ok::<OutcomeView, ConfigError>(OutcomeView::Written))
                &&& after.text(task.file) == disk.text(task.file) + text
            }
        }),
{
    reveal_with_fuel(Disk::run, 4);
}

/// Writing the same text twice leaves it in the file twice: nothing is
/// replaced or merged.
pub proof fn lemma_write_twice(
    disk: Disk,
    home: Seq<char>,
    directory: Seq<char>,
    name: Seq<char>,
    text: Seq<char>,
)
    requires
        !disk.locked.contains(begun(Some(home), directory, name, Goal::Write, text).file),
    ensures
        ({
            let task = begun(Some(home), directory, name, Goal::Write, text);
            let first = disk.run(task).0;
            let (second, ended) = first.run(task);
            &&& ended.outcome() == Some(Ok::<OutcomeView, ConfigError>(OutcomeView::Written))
            &&& second.text(task.file) == disk.text(task.file) + text + text
        }),
{
    let task = begun(Some(home), directory, name, Goal::Write, text);
    lemma_write(disk, home, directory, name, text);
    lemma_write(disk.run(task).0, home, directory, name, text);
}

/// The round trip. What was written to a file is what is read back from it:
/// the lines read are those of what the file held and then the text. Where
/// the file was empty or ended with a line feed, they are the lines of the
/// file and then those of the text. A line feed behind each line read gives
/// what the file held and then the text, character for character, where all
/// of that has plain lines, and only there.
pub proof fn lemma_round_trip(
    disk: Disk,
    home: Seq<char>,
    directory: Seq<char>,
    name: Seq<char>,
    text: Seq<char>,
)
    requires
        !disk.locked.contains(begun(Some(home), directory, name, Goal::Write, text).file),
    ensures
        ({
            let task = begun(Some(home), directory, name, Goal::Write, text);
            let before = disk.text(task.file);
            let written = disk.run(task).0;
            let ended = written.run(begun(Some(home), directory, name, Goal::Read, Seq::empty())).1;
            let lines = lines_of(before + text);
            &&& ended.outcome() == Some(Ok::<OutcomeView, ConfigError>(OutcomeView::Lines(lines)))
            &&& (before.len() > 0 ==> before.last() == '\n') ==> lines == lines_of(before)
                + lines_of(text)
            &&& unlines(lines) == before + text <==> plain_lines(before + text)
            &&& plain_lines(before) && plain_lines(text) ==> plain_lines(before + text)
        }),
{
    let task = begun(Some(home), directory, name, Goal::Write, text);
    let before = disk.text(task.file);
    lemma_write(disk, home, directory, name, text);
    lemma_read(disk.run(task).0, home, directory, name);
    if before.len() > 0 ==> before.last() == '\n' {
        lemma_lines_concat(before, text);
    }
    if plain_lines(before) && plain_lines(text) {
        lemma_plain_lines_concat(before, text);
    }
    lemma_unlines_lines(before + text);
}

} // verus!
