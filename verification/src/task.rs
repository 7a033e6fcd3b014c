//! Work on the configuration file, one action at a time.
//!
//! The library does not touch the file system. A `Task` names the next
//! `Action` for the caller to perform, takes the `Event` that came of it, and
//! ends with an `Outcome` or a `ConfigError`.

use crate::error::{ConfigError, Failure, Fault};
use crate::text::{lines, lines_of};
use vstd::prelude::*;
use vstd::utf8::encode_utf8;

verus! {

/// What a task is for.
#[derive(Clone, Copy, Debug, PartialEq, Eq, Structural)]
pub enum Goal {
    /// Make sure that the directory and the file exist.
    Create,
    /// Make sure that the file can be read.
    Check,
    /// Get the lines of the file.
    Read,
    /// Append a text to the file.
    Append,
    /// Make sure that the file can be read, then append a text to it.
    CheckedAppend,
    /// Make sure that the directory and the file exist and that the file can
    /// be read, then append a text to it.
    Write,
}

/// How far a task has come: the action it waits for, or how it ended.
#[derive(Debug, PartialEq)]
pub enum Stage {
    /// Waits to hear whether the directory exists.
    ProbeDirectory,
    /// Waits for the directory to be created.
    CreateDirectory,
    /// Waits to hear whether the file exists.
    ProbeFile,
    /// Waits for the file to be created.
    CreateFile,
    /// Waits for the text of the file.
    Scan,
    /// Waits for the text to be appended.
    Append,
    /// Ended well.
    Done,
    /// Ended with this error.
    Failed(ConfigError),
}

/// What the caller is asked to do on the file system.
#[derive(Debug, PartialEq, Eq)]
pub enum Action {
    /// Tell whether the directory exists.
    ProbeDirectory(String),
    /// Create the directory, and those above it that are missing.
    CreateDirectory(String),
    /// Tell whether the file exists.
    ProbeFile(String),
    /// Create the file, empty.
    CreateFile(String),
    /// Open the file and read all of it.
    Scan(String),
    /// Open the file for appending and write the text, in one call; tell how
    /// many bytes that call wrote.
    Append(String, String),
}

/// An `Action` as a mathematical value.
pub enum ActionView {
    ProbeDirectory(Seq<char>),
    CreateDirectory(Seq<char>),
    ProbeFile(Seq<char>),
    CreateFile(Seq<char>),
    Scan(Seq<char>),
    Append(Seq<char>, Seq<char>),
}

impl View for Action {
    type V = ActionView;

    open spec fn view(&self) -> ActionView {
        match self {
            Action::ProbeDirectory(p) => ActionView::ProbeDirectory(p@),
            Action::CreateDirectory(p) => ActionView::CreateDirectory(p@),
            Action::ProbeFile(p) => ActionView::ProbeFile(p@),
            Action::CreateFile(p) => ActionView::CreateFile(p@),
            Action::Scan(p) => ActionView::Scan(p@),
            Action::Append(p, t) => ActionView::Append(p@, t@),
        }
    }
}

/// What came of an action.
#[derive(Debug, PartialEq)]
pub enum Event {
    /// What was probed exists.
    Present,
    /// What was probed does not exist.
    Absent,
    /// The directory or the file was created.
    Completed,
    /// The file was read: this is its text.
    Text(String),
    /// The one call that writes wrote this many bytes.
    Written(usize),
    /// The file could not be opened.
    Refused(Failure),
    /// The call failed otherwise.
    Failed(Failure),
}

/// An `Event` as a mathematical value.
pub enum EventView {
    Present,
    Absent,
    Completed,
    Text(Seq<char>),
    Written(nat),
    Refused(Failure),
    Failed(Failure),
}

impl View for Event {
    type V = EventView;

    open spec fn view(&self) -> EventView {
        match self {
            Event::Present => EventView::Present,
            Event::Absent => EventView::Absent,
            Event::Completed => EventView::Completed,
            Event::Text(t) => EventView::Text(t@),
            Event::Written(n) => EventView::Written(*n as nat),
            Event::Refused(f) => EventView::Refused(*f),
            Event::Failed(f) => EventView::Failed(*f),
        }
    }
}

/// What a task that succeeded hands back.
#[derive(Debug, PartialEq, Eq)]
pub enum Outcome {
    /// The path of the file that now exists.
    Path(String),
    /// The file can be read.
    Readable,
    /// The lines of the file.
    Lines(Vec<String>),
    /// The text was appended.
    Written,
}

/// An `Outcome` as a mathematical value.
pub enum OutcomeView {
    Path(Seq<char>),
    Readable,
    Lines(Seq<Seq<char>>),
    Written,
}

impl View for Outcome {
    type V = OutcomeView;

    open spec fn view(&self) -> OutcomeView {
        match self {
            Outcome::Path(p) => OutcomeView::Path(p@),
            Outcome::Readable => OutcomeView::Readable,
            Outcome::Lines(l) => OutcomeView::Lines(l.deep_view()),
            Outcome::Written => OutcomeView::Written,
        }
    }
}

/// Work on the configuration file, between two actions or at its end.
#[derive(Debug)]
pub struct Task {
    goal: Goal,
    directory: String,
    file: String,
    text: String,
    stage: Stage,
    lines: Vec<String>,
}

/// A `Task` as a mathematical value.
pub struct TaskView {
    /// What the task is for.
    pub goal: Goal,
    /// The path of the directory.
    pub directory: Seq<char>,
    /// The path of the file.
    pub file: Seq<char>,
    /// The text to append.
    pub text: Seq<char>,
    /// How far the task has come.
    pub stage: Stage,
    /// The lines that were read.
    pub lines: Seq<Seq<char>>,
}

impl View for Task {
    type V = TaskView;

    closed spec fn view(&self) -> TaskView {
        TaskView {
            goal: self.goal,
            directory: self.directory@,
            file: self.file@,
            text: self.text@,
            stage: self.stage,
            lines: self.lines.deep_view(),
        }
    }
}

/// The stage at which a task with this goal starts.
pub open spec fn first_stage(goal: Goal) -> Stage {
    match goal {
        Goal::Create | Goal::Write => Stage::ProbeDirectory,
        Goal::Check | Goal::Read | Goal::CheckedAppend => Stage::Scan,
        Goal::Append => Stage::Append,
    }
}

/// The stage that follows once directory and file exist.
pub open spec fn after_ensured(goal: Goal) -> Stage {
    match goal {
        Goal::Create => Stage::Done,
        _ => Stage::Scan,
    }
}

/// The stage that follows once the file was read.
pub open spec fn after_scanned(goal: Goal) -> Stage {
    match goal {
        Goal::CheckedAppend | Goal::Write => Stage::Append,
        _ => Stage::Done,
    }
}

/// The error for a file that could not be opened for reading.
pub open spec fn refusal(failure: Failure) -> ConfigError {
    match failure.class {
        Fault::NotFound => ConfigError::FileNotFound,
        Fault::PermissionDenied => ConfigError::PermissionDenied,
        _ => ConfigError::IoError(failure),
    }
}

/// The number of bytes that a text has when it is written, as UTF-8.
pub open spec fn size(text: Seq<char>) -> nat {
    encode_utf8(text).len()
}

/// The error for an event that the stage has no use for.
pub open spec fn stray(event: EventView) -> ConfigError {
    match event {
        EventView::Refused(f) => ConfigError::IoError(f),
        EventView::Failed(f) => ConfigError::IoError(f),
        _ => ConfigError::IoError(Failure::plain(Fault::Other)),
    }
}

/// The task that ended with `error` before it asked for anything.
pub open spec fn failed(goal: Goal, error: ConfigError) -> TaskView {
    TaskView {
        goal,
        directory: Seq::empty(),
        file: Seq::empty(),
        text: Seq::empty(),
        stage: Stage::Failed(error),
        lines: Seq::empty(),
    }
}

/// The task for `goal` on the file at `file` in the directory at `directory`,
/// at its start.
pub open spec fn ready(
    goal: Goal,
    directory: Seq<char>,
    file: Seq<char>,
    text: Seq<char>,
) -> TaskView {
    TaskView { goal, directory, file, text, stage: first_stage(goal), lines: Seq::empty() }
}

impl TaskView {
    /// The same task at another stage.
    pub open spec fn at(self, stage: Stage) -> TaskView {
        TaskView { stage, ..self }
    }

    /// Whether the task has ended.
    pub open spec fn finished(self) -> bool {
        self.stage is Done || self.stage is Failed
    }

    /// The action that the task waits for. A task that has ended waits for none.
    pub open spec fn pending(self) -> Option<ActionView> {
        match self.stage {
            Stage::ProbeDirectory => Some(ActionView::ProbeDirectory(self.directory)),
            Stage::CreateDirectory => Some(ActionView::CreateDirectory(self.directory)),
            Stage::ProbeFile => Some(ActionView::ProbeFile(self.file)),
            Stage::CreateFile => Some(ActionView::CreateFile(self.file)),
            Stage::Scan => Some(ActionView::Scan(self.file)),
            Stage::Append => Some(ActionView::Append(self.file, self.text)),
            Stage::Done => None,
            Stage::Failed(_) => None,
        }
    }

    /// The task after `event` came of its pending action.
    ///
    /// A directory or a file is created only where the probe found none. A
    /// file that cannot be opened for reading gives `FileNotFound`,
    /// `PermissionDenied` or `IoError`, by the class of the failure. The text
    /// is appended where the one call wrote all its bytes; fewer are a
    /// `ShortWrite`. An error carries the failure as the event brought it. A
    /// task that has ended stays as it is.
    pub open spec fn advanced(self, event: EventView) -> TaskView {
        match self.stage {
            Stage::ProbeDirectory => match event {
                EventView::Present => self.at(Stage::ProbeFile),
                EventView::Absent => self.at(Stage::CreateDirectory),
                _ => self.at(Stage::Failed(stray(event))),
            },
            Stage::CreateDirectory => match event {
                EventView::Completed => self.at(Stage::ProbeFile),
                EventView::Refused(f) => self.at(
                    Stage::Failed(ConfigError::DirectoryCreateFailed(f)),
                ),
                EventView::Failed(f) => self.at(
                    Stage::Failed(ConfigError::DirectoryCreateFailed(f)),
                ),
                _ => self.at(Stage::Failed(stray(event))),
            },
            Stage::ProbeFile => match event {
                EventView::Present => self.at(after_ensured(self.goal)),
                EventView::Absent => self.at(Stage::CreateFile),
                _ => self.at(Stage::Failed(stray(event))),
            },
            Stage::CreateFile => match event {
                EventView::Completed => self.at(after_ensured(self.goal)),
                EventView::Refused(f) => self.at(Stage::Failed(ConfigError::FileCreateFailed(f))),
                EventView::Failed(f) => self.at(Stage::Failed(ConfigError::FileCreateFailed(f))),
                _ => self.at(Stage::Failed(stray(event))),
            },
            Stage::Scan => match event {
                EventView::Text(t) => TaskView {
                    stage: after_scanned(self.goal),
                    lines: if self.goal == Goal::Read {
                        lines_of(t)
                    } else {
                        Seq::empty()
                    },
                    ..self
                },
                EventView::Refused(f) => self.at(Stage::Failed(refusal(f))),
                _ => self.at(Stage::Failed(stray(event))),
            },
            Stage::Append => match event {
                EventView::Written(n) => if n == size(self.text) {
                    self.at(Stage::Done)
                } else {
                    self.at(
                        Stage::Failed(ConfigError::AppendFailed(Failure::plain(Fault::ShortWrite))),
                    )
                },
                EventView::Refused(f) => self.at(Stage::Failed(ConfigError::OpenFailed(f))),
                EventView::Failed(f) => self.at(Stage::Failed(ConfigError::AppendFailed(f))),
                _ => self.at(Stage::Failed(stray(event))),
            },
            Stage::Done => self,
            Stage::Failed(_) => self,
        }
    }

    /// How the task ended, if it has.
    pub open spec fn outcome(self) -> Option<Result<OutcomeView, ConfigError>> {
        match self.stage {
            Stage::Done => Some(
                Ok(
                    match self.goal {
                        Goal::Create => OutcomeView::Path(self.file),
                        Goal::Check => OutcomeView::Readable,
                        Goal::Read => OutcomeView::Lines(self.lines),
                        _ => OutcomeView::Written,
                    },
                ),
            ),
            Stage::Failed(e) => Some(Err(e)),
            _ => None,
        }
    }

    /// The greatest number of actions that the task may still ask for.
    pub open spec fn remaining(self) -> nat {
        match self.stage {
            Stage::ProbeDirectory => 6,
            Stage::CreateDirectory => 5,
            Stage::ProbeFile => 4,
            Stage::CreateFile => 3,
            Stage::Scan => 2,
            Stage::Append => 1,
            Stage::Done => 0,
            Stage::Failed(_) => 0,
        }
    }
}

/// After an event a task that had not ended has fewer actions left to ask
/// for, and a task that had ended is unchanged: no task asks for more than
/// six actions.
pub proof fn lemma_advance_progress(task: TaskView, event: EventView)
    ensures
        !task.finished() ==> task.advanced(event).remaining() < task.remaining(),
        task.finished() ==> task.advanced(event) == task,
        task.finished() <==> task.pending() is None,
        task.finished() <==> task.outcome() is Some,
        task.remaining() <= 6,
{
}

impl Task {
    /// The task for `goal` on the file at `file` in the directory at
    /// `directory`, at its start. `text` is what an appending goal writes.
    pub fn new(goal: Goal, directory: String, file: String, text: String) -> (t: Task)
        ensures
            t@ == ready(goal, directory@, file@, text@),
    {
        let stage = match goal {
            Goal::Create | Goal::Write => Stage::ProbeDirectory,
            Goal::Check | Goal::Read | Goal::CheckedAppend => Stage::Scan,
            Goal::Append => Stage::Append,
        };
        let t = Task { goal, directory, file, text, stage, lines: Vec::new() };
        assert(t.lines.deep_view() =~= Seq::<Seq<char>>::empty());
        t
    }

    /// The task that ended with `error` before it asked for anything.
    pub fn failed(goal: Goal, error: ConfigError) -> (t: Task)
        ensures
            t@ == failed(goal, error),
    {
        let t = Task {
            goal,
            directory: String::new(),
            file: String::new(),
            text: String::new(),
            stage: Stage::Failed(error),
            lines: Vec::new(),
        };
        assert(t.lines.deep_view() =~= Seq::<Seq<char>>::empty());
        t
    }

    /// How far the task has come.
    pub fn stage(&self) -> (r: &Stage)
        ensures
            *r == self@.stage,
    {
        &self.stage
    }

    /// Whether the task has ended.
    pub fn finished(&self) -> (r: bool)
        ensures
            r == self@.finished(),
    {
        match self.stage {
            Stage::Done => true,
            Stage::Failed(_) => true,
            _ => false,
        }
    }

    /// The action that the task waits for. A task that has ended waits for none.
    pub fn action(&self) -> (r: Option<Action>)
        ensures
            match r {
                Some(a) => self@.pending() == Some(a@),
                None => self@.pending() is None,
            },
    {
        match self.stage {
            Stage::ProbeDirectory => Some(Action::ProbeDirectory(self.directory.clone())),
            Stage::CreateDirectory => Some(Action::CreateDirectory(self.directory.clone())),
            Stage::ProbeFile => Some(Action::ProbeFile(self.file.clone())),
            Stage::CreateFile => Some(Action::CreateFile(self.file.clone())),
            Stage::Scan => Some(Action::Scan(self.file.clone())),
            Stage::Append => Some(Action::Append(self.file.clone(), self.text.clone())),
            Stage::Done => None,
            Stage::Failed(_) => None,
        }
    }

    /// The same task at another stage.
    fn at(self, stage: Stage) -> (t: Task)
        ensures
            t@ == self@.at(stage),
    {
        Task { stage, ..self }
    }

    /// The error for an event that the stage has no use for.
    fn stray(event: Event) -> (e: ConfigError)
        ensures
            e == stray(event@),
    {
        match event {
            Event::Refused(f) => ConfigError::IoError(f),
            Event::Failed(f) => ConfigError::IoError(f),
            _ => ConfigError::IoError(Failure::of(Fault::Other)),
        }
    }

    /// The task after `event` came of its pending action.
    pub fn advance(self, event: Event) -> (t: Task)
        ensures
            t@ == self@.advanced(event@),
    {
        let goal = self.goal;
        let ensured = match goal {
            Goal::Create => Stage::Done,
            _ => Stage::Scan,
        };
        let scanned = match goal {
            Goal::CheckedAppend | Goal::Write => Stage::Append,
            _ => Stage::Done,
        };
        match self.stage {
            Stage::ProbeDirectory => match event {
                Event::Present => self.at(Stage::ProbeFile),
                Event::Absent => self.at(Stage::CreateDirectory),
                other => self.at(Stage::Failed(Task::stray(other))),
            },
            Stage::CreateDirectory => match event {
                Event::Completed => self.at(Stage::ProbeFile),
                Event::Refused(f) => self.at(Stage::Failed(ConfigError::DirectoryCreateFailed(f))),
                Event::Failed(f) => self.at(Stage::Failed(ConfigError::DirectoryCreateFailed(f))),
                other => self.at(Stage::Failed(Task::stray(other))),
            },
            Stage::ProbeFile => match event {
                Event::Present => self.at(ensured),
                Event::Absent => self.at(Stage::CreateFile),
                other => self.at(Stage::Failed(Task::stray(other))),
            },
            Stage::CreateFile => match event {
                Event::Completed => self.at(ensured),
                Event::Refused(f) => self.at(Stage::Failed(ConfigError::FileCreateFailed(f))),
                Event::Failed(f) => self.at(Stage::Failed(ConfigError::FileCreateFailed(f))),
                other => self.at(Stage::Failed(Task::stray(other))),
            },
            Stage::Scan => match event {
                Event::Text(t) => {
                    let read = if goal == Goal::Read {
                        lines(t.as_str())
                    } else {
                        let none: Vec<String> = Vec::new();
                        assert(none.deep_view() =~= Seq::<Seq<char>>::empty());
                        none
                    };
                    Task { stage: scanned, lines: read, ..self }
                },
                Event::Refused(f) => {
                    let error = match f.class {
                        Fault::NotFound => ConfigError::FileNotFound,
                        Fault::PermissionDenied => ConfigError::PermissionDenied,
                        _ => ConfigError::IoError(f),
                    };
                    self.at(Stage::Failed(error))
                },
                other => self.at(Stage::Failed(Task::stray(other))),
            },
            Stage::Append => match event {
                Event::Written(n) => {
                    if n == self.text.as_str().as_bytes().len() {
                        self.at(Stage::Done)
                    } else {
                        let short = Failure::of(Fault::ShortWrite);
                        self.at(Stage::Failed(ConfigError::AppendFailed(short)))
                    }
                },
                Event::Refused(f) => self.at(Stage::Failed(ConfigError::OpenFailed(f))),
                Event::Failed(f) => self.at(Stage::Failed(ConfigError::AppendFailed(f))),
                other => self.at(Stage::Failed(Task::stray(other))),
            },
            Stage::Done => self,
            Stage::Failed(_) => self,
        }
    }

    /// How the task ended, if it has.
    pub fn outcome(self) -> (r: Option<Result<Outcome, ConfigError>>)
        ensures
            match r {
                Some(Ok(o)) => self@.outcome() == Some(Ok::<OutcomeView, ConfigError>(o@)),
                Some(Err(e)) => self@.outcome() == Some(Err::<OutcomeView, ConfigError>(e)),
                None => self@.outcome() is None,
            },
    {
        match self.stage {
            Stage::Done => Some(
                Ok(
                    match self.goal {
                        Goal::Create => Outcome::Path(self.file),
                        Goal::Check => Outcome::Readable,
                        Goal::Read => Outcome::Lines(self.lines),
                        _ => Outcome::Written,
                    },
                ),
            ),
            Stage::Failed(e) => Some(Err(e)),
            _ => None,
        }
    }
}

} // verus!
