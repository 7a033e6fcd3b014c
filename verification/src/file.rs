//! The configuration file below the home directory: where it lies, and the
//! tasks that create, check and read it.

use crate::error::ConfigError;
use crate::task::{failed, ready, Goal, Task, TaskView};
use vstd::prelude::*;

verus! {

/// Whether a path starts at the root.
pub open spec fn is_absolute(path: Seq<char>) -> bool {
    path.len() > 0 && path[0] == '/'
}

/// The path of `segment` seen from `base`: an absolute segment stands for
/// itself, any other is put behind `base`, with one `/` between the two where
/// `base` does not end with one.
pub open spec fn joined(base: Seq<char>, segment: Seq<char>) -> Seq<char> {
    if is_absolute(segment) {
        segment
    } else if base.len() == 0 || base.last() == '/' {
        base + segment
    } else {
        base + seq!['/'] + segment
    }
}

/// The task for `goal` on the file `name` in the directory `directory` below
/// `home`, at its start. Without a home directory it has failed already.
pub open spec fn begun(
    home: Option<Seq<char>>,
    directory: Seq<char>,
    name: Seq<char>,
    goal: Goal,
    text: Seq<char>,
) -> TaskView {
    match home {
        None => failed(goal, ConfigError::HomeDirectoryUnavailable),
        Some(h) => ready(goal, joined(h, directory), joined(joined(h, directory), name), text),
    }
}

/// Whether `task` is the task for `goal` on the file `name` in `directory`, at
/// its start, below some home directory or without one.
pub open spec fn started(
    task: TaskView,
    directory: Seq<char>,
    name: Seq<char>,
    goal: Goal,
    text: Seq<char>,
) -> bool {
    exists|home: Option<Seq<char>>| task == #[trigger] begun(home, directory, name, goal, text)
}

/// A home directory as a mathematical value.
pub open spec fn home_view(home: Option<String>) -> Option<Seq<char>> {
    match home {
        Some(h) => Some(h@),
        None => None,
    }
}

/// The type `directories::BaseDirs`: the base directories of the user, as the
/// platform gave them. Nothing of what it holds is visible here.
#[verifier::external_type_specification]
#[verifier::external_body]
pub struct ExBaseDirs(directories::BaseDirs);

/// `directories::BaseDirs::new`: asks the platform for the home directory of
/// the user and derives the base directories from it and from the
/// environment. Its answer depends on the environment, so nothing is claimed
/// of it.
pub assume_specification[ directories::BaseDirs::new ]() -> (r: Option<directories::BaseDirs>);

/// `directories::BaseDirs::home_dir`: the path of the home directory, as text
/// where the path is UTF-8. Nothing is claimed of the text.
#[verifier::external_body]
fn home_of(dirs: &directories::BaseDirs) -> (r: Option<String>) {
    dirs.home_dir().to_str().map(String::from)
}

/// The home directory of the user, if the platform gives one whose path is text.
fn home_directory() -> (r: Option<String>) {
    match directories::BaseDirs::new() {
        Some(dirs) => home_of(&dirs),
        None => None,
    }
}

/// The path of `segment` seen from `base`, with `/` as the separator.
pub fn join(base: &str, segment: &str) -> (r: String)
    ensures
        r@ == joined(base@, segment@),
{
    let n = segment.unicode_len();
    if n > 0 && segment.get_char(0) == '/' {
        return segment.to_string();
    }
    let m = base.unicode_len();
    if m == 0 || base.get_char(m - 1) == '/' {
        base.to_string().concat(segment)
    } else {
        proof {
            reveal_strlit("/");
            assert("/"@ =~= seq!['/']);
        }
        base.to_string().concat("/").concat(segment)
    }
}

/// Where the configuration file lies: a directory below the home directory,
/// and the name of the file in it.
#[derive(Debug)]
pub struct Store {
    pub directory: String,
    pub name: String,
}

impl Store {
    /// The store for the file `name` in `directory`.
    pub fn new(directory: &str, name: &str) -> (s: Store)
        ensures
            s.directory@ == directory@,
            s.name@ == name@,
    {
        Store { directory: directory.to_string(), name: name.to_string() }
    }

    /// The task for `goal` on this store below the given home directory, at
    /// its start. `text` is what an appending goal writes.
    pub fn begin(&self, home: Option<String>, goal: Goal, text: &str) -> (t: Task)
        ensures
            t@ == begun(home_view(home), self.directory@, self.name@, goal, text@),
    {
        match home {
            None => Task::failed(goal, ConfigError::HomeDirectoryUnavailable),
            Some(h) => {
                let directory = join(h.as_str(), self.directory.as_str());
                let file = join(directory.as_str(), self.name.as_str());
                Task::new(goal, directory, file, text.to_string())
            },
        }
    }

    /// The task for `goal` on this store below the home directory that the
    /// platform gives, whatever that is.
    pub fn start(&self, goal: Goal, text: &str) -> (t: Task)
        ensures
            started(t@, self.directory@, self.name@, goal, text@),
    {
        let home = home_directory();
        let t = self.begin(home, goal, text);
        assert(t@ == begun(home_view(home), self.directory@, self.name@, goal, text@));
        t
    }
}

/// The task that makes sure that the directory `config_dir` below the home
/// directory and the file `config_file` in it exist. What exists is left as
/// it is. The task ends with the path of the file.
pub fn create(config_dir: &str, config_file: &str) -> (t: Task)
    ensures
        started(t@, config_dir@, config_file@, Goal::Create, Seq::empty()),
{
    proof {
        reveal_strlit("");
    }
    let t = Store::new(config_dir, config_file).start(Goal::Create, "");
    assert(""@ =~= Seq::<char>::empty());
    t
}

/// The task that makes sure that the file at `file_path` below the home
/// directory can be opened and read to its end.
pub fn permissions(file_path: &str) -> (t: Task)
    ensures
        started(t@, Seq::empty(), file_path@, Goal::Check, Seq::empty()),
{
    proof {
        reveal_strlit("");
    }
    let t = Store::new("", file_path).start(Goal::Check, "");
    assert(""@ =~= Seq::<char>::empty());
    t
}

/// The task that reads the file at `file_path` below the home directory and
/// ends with its lines.
pub fn read(file_path: &str) -> (t: Task)
    ensures
        started(t@, Seq::empty(), file_path@, Goal::Read, Seq::empty()),
{
    proof {
        reveal_strlit("");
    }
    let t = Store::new("", file_path).start(Goal::Read, "");
    assert(""@ =~= Seq::<char>::empty());
    t
}

} // verus!
