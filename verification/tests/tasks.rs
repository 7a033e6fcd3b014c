use oci_config_writer::account::admin;
use oci_config_writer::error::{ConfigError, Failure, Fault};
use oci_config_writer::file::{create, join, permissions, read, Store};
use oci_config_writer::task::{Action, Event, Goal, Outcome, Stage, Task};
use oci_config_writer::tenancy::acc;
use oci_config_writer::user::usr;
use oci_config_writer::{content, credentials, profile};
use std::collections::{BTreeMap, BTreeSet};

/// A file system in memory, with a record of what was asked of it.
struct Disk {
    directories: BTreeSet<String>,
    files: BTreeMap<String, String>,
    locked: BTreeSet<String>,
    asked: Vec<Action>,
}

impl Disk {
    fn new() -> Disk {
        Disk {
            directories: BTreeSet::new(),
            files: BTreeMap::new(),
            locked: BTreeSet::new(),
            asked: Vec::new(),
        }
    }

    fn perform(&mut self, action: Action) -> Event {
        let event = match &action {
            Action::ProbeDirectory(p) => {
                if self.directories.contains(p) {
                    Event::Present
                } else {
                    Event::Absent
                }
            }
            Action::CreateDirectory(p) => {
                self.directories.insert(p.clone());
                Event::Completed
            }
            Action::ProbeFile(p) => {
                if self.files.contains_key(p) {
                    Event::Present
                } else {
                    Event::Absent
                }
            }
            Action::CreateFile(p) => {
                self.files.insert(p.clone(), String::new());
                Event::Completed
            }
            Action::Scan(p) => match self.files.get(p) {
                None => Event::Refused(Failure::of(Fault::NotFound)),
                Some(_) if self.locked.contains(p) => Event::Refused(Failure::of(Fault::PermissionDenied)),
                Some(text) => Event::Text(text.clone()),
            },
            Action::Append(p, t) => match self.files.get_mut(p) {
                None => Event::Refused(Failure::of(Fault::NotFound)),
                Some(text) => {
                    text.push_str(t);
                    Event::Written(t.len())
                }
            },
        };
        self.asked.push(action);
        event
    }

    fn run(&mut self, task: Task) -> Result<Outcome, ConfigError> {
        let mut task = task;
        let mut steps = 0;
        loop {
            match task.action() {
                Some(action) => {
                    assert!(!task.finished());
                    let event = self.perform(action);
                    task = task.advance(event);
                    steps += 1;
                    assert!(steps <= 6);
                }
                None => {
                    assert!(task.finished());
                    return task.outcome().unwrap();
                }
            }
        }
    }

    fn path(&self) -> String {
        assert_eq!(self.files.len(), 1);
        self.files.keys().next().unwrap().clone()
    }
}

fn home() -> Option<String> {
    Some("/home/u".to_string())
}

fn feed(task: Task, events: Vec<Event>) -> Task {
    let mut task = task;
    for event in events {
        task = task.advance(event);
    }
    task
}

#[test]
fn join_puts_one_separator_between_base_and_segment() {
    assert_eq!(join("/home/u", ".oci"), "/home/u/.oci");
    assert_eq!(join("/home/u/", ".oci"), "/home/u/.oci");
    assert_eq!(join("/home/u/.oci", "config"), "/home/u/.oci/config");
    assert_eq!(join("/home/u", ".oci/config"), "/home/u/.oci/config");
    assert_eq!(join("/", "etc"), "/etc");
    assert_eq!(join("", "etc"), "etc");
    assert_eq!(join("/home/u", ""), "/home/u/");
    assert_eq!(join("/home/u/", ""), "/home/u/");
    assert_eq!(join("", ""), "");
}

#[test]
fn join_lets_an_absolute_segment_stand_for_itself() {
    assert_eq!(join("/home/u", "/etc/oci"), "/etc/oci");
    assert_eq!(join("", "/"), "/");
    assert_eq!(join("/home/u/", "/x"), "/x");
}

#[test]
fn join_agrees_with_the_standard_library_on_these_paths() {
    for (base, segment) in [
        ("/home/u", ".oci"),
        ("/home/u/", ".oci"),
        ("/home/u", "/abs"),
        ("/", "x"),
        ("", "x"),
        ("/home/u", ""),
        ("rel", "a/b"),
    ] {
        let expected = std::path::Path::new(base).join(segment);
        assert_eq!(join(base, segment), expected.to_str().unwrap(), "{:?} {:?}", base, segment);
    }
}

#[test]
fn a_task_without_a_home_directory_has_failed() {
    for goal in [Goal::Create, Goal::Check, Goal::Read, Goal::Append, Goal::CheckedAppend, Goal::Write] {
        let task = Store::new(".oci", "config").begin(None, goal, "text");
        assert!(task.finished());
        assert_eq!(task.stage(), &Stage::Failed(ConfigError::HomeDirectoryUnavailable));
        assert_eq!(task.action(), None);
        assert_eq!(task.outcome(), Some(Err(ConfigError::HomeDirectoryUnavailable)));
    }
}

#[test]
fn an_unfinished_task_has_no_outcome() {
    let task = Store::new(".oci", "config").begin(home(), Goal::Create, "");
    assert!(!task.finished());
    assert_eq!(task.stage(), &Stage::ProbeDirectory);
    assert_eq!(task.outcome(), None);
}

#[test]
fn each_goal_starts_with_its_first_action() {
    let store = Store::new(".oci", "config");
    let dir = "/home/u/.oci".to_string();
    let file = "/home/u/.oci/config".to_string();
    assert_eq!(store.begin(home(), Goal::Create, "").action(), Some(Action::ProbeDirectory(dir.clone())));
    assert_eq!(store.begin(home(), Goal::Write, "t").action(), Some(Action::ProbeDirectory(dir)));
    assert_eq!(store.begin(home(), Goal::Check, "").action(), Some(Action::Scan(file.clone())));
    assert_eq!(store.begin(home(), Goal::Read, "").action(), Some(Action::Scan(file.clone())));
    assert_eq!(store.begin(home(), Goal::CheckedAppend, "t").action(), Some(Action::Scan(file.clone())));
    assert_eq!(
        store.begin(home(), Goal::Append, "t").action(),
        Some(Action::Append(file, "t".to_string()))
    );
}

#[test]
fn ensure_file_creates_directory_and_file() {
    let mut disk = Disk::new();
    let task = Store::new(".testdir", "config").begin(home(), Goal::Create, "");
    assert_eq!(disk.run(task), Ok(Outcome::Path("/home/u/.testdir/config".to_string())));
    assert!(disk.directories.contains("/home/u/.testdir"));
    assert_eq!(disk.files.get("/home/u/.testdir/config"), Some(&String::new()));
    assert_eq!(
        disk.asked,
        vec![
            Action::ProbeDirectory("/home/u/.testdir".to_string()),
            Action::CreateDirectory("/home/u/.testdir".to_string()),
            Action::ProbeFile("/home/u/.testdir/config".to_string()),
            Action::CreateFile("/home/u/.testdir/config".to_string()),
        ]
    );
}

#[test]
fn ensure_file_twice_is_idempotent() {
    let mut disk = Disk::new();
    let store = Store::new(".testdir", "config");
    let first = disk.run(store.begin(home(), Goal::Create, ""));
    disk.files.insert("/home/u/.testdir/config".to_string(), "kept\n".to_string());
    disk.asked.clear();
    let second = disk.run(store.begin(home(), Goal::Create, ""));
    assert_eq!(first, Ok(Outcome::Path("/home/u/.testdir/config".to_string())));
    assert_eq!(second, first);
    assert_eq!(disk.files.get("/home/u/.testdir/config"), Some(&"kept\n".to_string()));
    assert_eq!(
        disk.asked,
        vec![
            Action::ProbeDirectory("/home/u/.testdir".to_string()),
            Action::ProbeFile("/home/u/.testdir/config".to_string()),
        ]
    );
}

#[test]
fn ensure_file_creates_the_file_in_a_directory_that_exists() {
    let mut disk = Disk::new();
    disk.directories.insert("/home/u/.oci".to_string());
    let task = Store::new(".oci", "config").begin(home(), Goal::Create, "");
    assert_eq!(disk.run(task), Ok(Outcome::Path("/home/u/.oci/config".to_string())));
    assert_eq!(
        disk.asked,
        vec![
            Action::ProbeDirectory("/home/u/.oci".to_string()),
            Action::ProbeFile("/home/u/.oci/config".to_string()),
            Action::CreateFile("/home/u/.oci/config".to_string()),
        ]
    );
}

#[test]
fn a_directory_that_cannot_be_created_fails_the_task() {
    let task = Store::new(".oci", "config").begin(home(), Goal::Create, "");
    let task = feed(task, vec![Event::Absent, Event::Failed(Failure::of(Fault::PermissionDenied))]);
    assert_eq!(task.stage(), &Stage::Failed(ConfigError::DirectoryCreateFailed(Failure::of(Fault::PermissionDenied))));
    assert_eq!(task.action(), None);
    assert_eq!(task.outcome(), Some(Err(ConfigError::DirectoryCreateFailed(Failure::of(Fault::PermissionDenied)))));
    let task = Store::new(".oci", "config").begin(home(), Goal::Write, "t");
    let task = feed(task, vec![Event::Absent, Event::Refused(Failure::of(Fault::Other))]);
    assert_eq!(task.outcome(), Some(Err(ConfigError::DirectoryCreateFailed(Failure::of(Fault::Other)))));
}

#[test]
fn a_file_that_cannot_be_created_fails_the_task() {
    let task = Store::new(".oci", "config").begin(home(), Goal::Create, "");
    let task = feed(task, vec![Event::Present, Event::Absent, Event::Failed(Failure::of(Fault::NotFound))]);
    assert_eq!(task.outcome(), Some(Err(ConfigError::FileCreateFailed(Failure::of(Fault::NotFound)))));
    let task = Store::new(".oci", "config").begin(home(), Goal::Create, "");
    let task = feed(
        task,
        vec![Event::Absent, Event::Completed, Event::Absent, Event::Refused(Failure::of(Fault::PermissionDenied))],
    );
    assert_eq!(task.outcome(), Some(Err(ConfigError::FileCreateFailed(Failure::of(Fault::PermissionDenied)))));
}

#[test]
fn check_readable_tells_missing_from_denied() {
    let mut disk = Disk::new();
    let store = Store::new(".oci", "config");
    assert_eq!(disk.run(store.begin(home(), Goal::Check, "")), Err(ConfigError::FileNotFound));
    disk.files.insert("/home/u/.oci/config".to_string(), "x\n".to_string());
    disk.locked.insert("/home/u/.oci/config".to_string());
    assert_eq!(disk.run(store.begin(home(), Goal::Check, "")), Err(ConfigError::PermissionDenied));
    disk.locked.clear();
    assert_eq!(disk.run(store.begin(home(), Goal::Check, "")), Ok(Outcome::Readable));
    assert_eq!(disk.files.get("/home/u/.oci/config"), Some(&"x\n".to_string()));
}

#[test]
fn a_scan_that_fails_otherwise_is_an_io_error() {
    let store = Store::new(".oci", "config");
    let task = store.begin(home(), Goal::Check, "").advance(Event::Refused(Failure::of(Fault::Other)));
    assert_eq!(task.outcome(), Some(Err(ConfigError::IoError(Failure::of(Fault::Other)))));
    let task = store.begin(home(), Goal::Check, "").advance(Event::Refused(Failure::of(Fault::InvalidData)));
    assert_eq!(task.outcome(), Some(Err(ConfigError::IoError(Failure::of(Fault::InvalidData)))));
    let task = store.begin(home(), Goal::Read, "").advance(Event::Failed(Failure::of(Fault::InvalidData)));
    assert_eq!(task.outcome(), Some(Err(ConfigError::IoError(Failure::of(Fault::InvalidData)))));
    // Only a file that cannot be opened is told apart by the class of the failure.
    let task = store.begin(home(), Goal::Read, "").advance(Event::Failed(Failure::of(Fault::NotFound)));
    assert_eq!(task.outcome(), Some(Err(ConfigError::IoError(Failure::of(Fault::NotFound)))));
    let task = store.begin(home(), Goal::Read, "").advance(Event::Failed(Failure::of(Fault::PermissionDenied)));
    assert_eq!(task.outcome(), Some(Err(ConfigError::IoError(Failure::of(Fault::PermissionDenied)))));
}

#[test]
fn read_all_gives_the_lines_in_file_order() {
    let mut disk = Disk::new();
    disk.files.insert("/home/u/.oci/config".to_string(), "one\r\ntwo\n\nfour".to_string());
    let store = Store::new(".oci", "config");
    assert_eq!(
        disk.run(store.begin(home(), Goal::Read, "")),
        Ok(Outcome::Lines(vec![
            "one".to_string(),
            "two".to_string(),
            "".to_string(),
            "four".to_string()
        ]))
    );
    // Reading again gives the same lines.
    assert_eq!(
        disk.run(store.begin(home(), Goal::Read, "")),
        Ok(Outcome::Lines(vec![
            "one".to_string(),
            "two".to_string(),
            "".to_string(),
            "four".to_string()
        ]))
    );
    disk.files.insert("/home/u/.oci/config".to_string(), String::new());
    assert_eq!(disk.run(store.begin(home(), Goal::Read, "")), Ok(Outcome::Lines(vec![])));
}

#[test]
fn read_all_fails_as_check_readable_does() {
    let mut disk = Disk::new();
    let store = Store::new(".oci", "config");
    assert_eq!(disk.run(store.begin(home(), Goal::Read, "")), Err(ConfigError::FileNotFound));
    disk.files.insert("/home/u/.oci/config".to_string(), "x\n".to_string());
    disk.locked.insert("/home/u/.oci/config".to_string());
    assert_eq!(disk.run(store.begin(home(), Goal::Read, "")), Err(ConfigError::PermissionDenied));
}

#[test]
fn append_does_not_create_the_file() {
    let mut disk = Disk::new();
    let task = Store::new(".ocloud", "config").begin(home(), Goal::Append, "text");
    assert_eq!(disk.run(task), Err(ConfigError::OpenFailed(Failure::of(Fault::NotFound))));
    assert!(disk.files.is_empty());
    assert_eq!(
        disk.asked,
        vec![Action::Append("/home/u/.ocloud/config".to_string(), "text".to_string())]
    );
}

#[test]
fn append_tells_opening_from_writing() {
    let store = Store::new(".ocloud", "config");
    let task = store.begin(home(), Goal::Append, "t").advance(Event::Refused(Failure::of(Fault::PermissionDenied)));
    assert_eq!(task.outcome(), Some(Err(ConfigError::OpenFailed(Failure::of(Fault::PermissionDenied)))));
    let task = store.begin(home(), Goal::Append, "t").advance(Event::Failed(Failure::of(Fault::Other)));
    assert_eq!(task.outcome(), Some(Err(ConfigError::AppendFailed(Failure::of(Fault::Other)))));
    let task = store.begin(home(), Goal::Append, "t").advance(Event::Written(1));
    assert_eq!(task.outcome(), Some(Ok(Outcome::Written)));
}

#[test]
fn checked_append_checks_before_it_writes() {
    let mut disk = Disk::new();
    let store = Store::new(".oci", "config");
    assert_eq!(disk.run(store.begin(home(), Goal::CheckedAppend, "t")), Err(ConfigError::FileNotFound));
    disk.files.insert("/home/u/.oci/config".to_string(), "a\n".to_string());
    disk.locked.insert("/home/u/.oci/config".to_string());
    assert_eq!(
        disk.run(store.begin(home(), Goal::CheckedAppend, "t")),
        Err(ConfigError::PermissionDenied)
    );
    assert_eq!(disk.files.get("/home/u/.oci/config"), Some(&"a\n".to_string()));
    disk.locked.clear();
    disk.asked.clear();
    assert_eq!(disk.run(store.begin(home(), Goal::CheckedAppend, "t")), Ok(Outcome::Written));
    assert_eq!(disk.files.get("/home/u/.oci/config"), Some(&"a\nt".to_string()));
    assert_eq!(
        disk.asked,
        vec![
            Action::Scan("/home/u/.oci/config".to_string()),
            Action::Append("/home/u/.oci/config".to_string(), "t".to_string()),
        ]
    );
}

#[test]
fn write_runs_through_all_six_actions_on_an_empty_disk() {
    let mut disk = Disk::new();
    let task = Store::new(".oci", "config").begin(home(), Goal::Write, "text\n");
    assert_eq!(disk.run(task), Ok(Outcome::Written));
    assert_eq!(
        disk.asked,
        vec![
            Action::ProbeDirectory("/home/u/.oci".to_string()),
            Action::CreateDirectory("/home/u/.oci".to_string()),
            Action::ProbeFile("/home/u/.oci/config".to_string()),
            Action::CreateFile("/home/u/.oci/config".to_string()),
            Action::Scan("/home/u/.oci/config".to_string()),
            Action::Append("/home/u/.oci/config".to_string(), "text\n".to_string()),
        ]
    );
    assert_eq!(disk.files.get("/home/u/.oci/config"), Some(&"text\n".to_string()));
}

#[test]
fn an_event_that_answers_nothing_fails_the_task() {
    let store = Store::new(".oci", "config");
    let task = store.begin(home(), Goal::Create, "").advance(Event::Completed);
    assert_eq!(task.outcome(), Some(Err(ConfigError::IoError(Failure::of(Fault::Other)))));
    let task = store.begin(home(), Goal::Create, "").advance(Event::Text("x".to_string()));
    assert_eq!(task.outcome(), Some(Err(ConfigError::IoError(Failure::of(Fault::Other)))));
    let task = store.begin(home(), Goal::Create, "").advance(Event::Failed(Failure::of(Fault::PermissionDenied)));
    assert_eq!(task.outcome(), Some(Err(ConfigError::IoError(Failure::of(Fault::PermissionDenied)))));
    let task = store.begin(home(), Goal::Check, "").advance(Event::Present);
    assert_eq!(task.outcome(), Some(Err(ConfigError::IoError(Failure::of(Fault::Other)))));
    let task = store.begin(home(), Goal::Append, "t").advance(Event::Absent);
    assert_eq!(task.outcome(), Some(Err(ConfigError::IoError(Failure::of(Fault::Other)))));
    let task = store.begin(home(), Goal::Append, "t").advance(Event::Completed);
    assert_eq!(task.outcome(), Some(Err(ConfigError::IoError(Failure::of(Fault::Other)))));
    let task = store.begin(home(), Goal::Check, "").advance(Event::Written(0));
    assert_eq!(task.outcome(), Some(Err(ConfigError::IoError(Failure::of(Fault::Other)))));
    let task = feed(store.begin(home(), Goal::Create, ""), vec![Event::Absent, Event::Present]);
    assert_eq!(task.outcome(), Some(Err(ConfigError::IoError(Failure::of(Fault::Other)))));
    let task = feed(store.begin(home(), Goal::Create, ""), vec![Event::Present, Event::Completed]);
    assert_eq!(task.outcome(), Some(Err(ConfigError::IoError(Failure::of(Fault::Other)))));
}

#[test]
fn a_task_that_has_ended_ignores_events() {
    let store = Store::new(".oci", "config");
    let done = store.begin(home(), Goal::Check, "").advance(Event::Text("x".to_string()));
    assert_eq!(done.stage(), &Stage::Done);
    let still = feed(done, vec![Event::Failed(Failure::of(Fault::Other)), Event::Absent, Event::Text("y".to_string())]);
    assert_eq!(still.stage(), &Stage::Done);
    assert_eq!(still.outcome(), Some(Ok(Outcome::Readable)));
    let failed = Task::failed(Goal::Write, ConfigError::InvalidRegionCode);
    let still = feed(failed, vec![Event::Completed, Event::Present]);
    assert_eq!(still.outcome(), Some(Err(ConfigError::InvalidRegionCode)));
}

#[test]
fn default_profile_is_read_back_after_it_was_appended() {
    let mut disk = Disk::new();
    assert_eq!(disk.run(profile("u1", "fp1", "/k", "t1", "IAD")), Ok(Outcome::Written));
    let path = disk.path();
    assert!(path.ends_with(".oci/config"), "{}", path);
    let lines = match disk.run(read(".oci/config")) {
        Ok(Outcome::Lines(lines)) => lines,
        other => panic!("{:?}", other),
    };
    let all = lines.concat();
    assert!(all.contains("[DEFAULT]"));
    assert!(all.contains("user=u1"));
    assert!(all.contains("region=us-ashburn-1"));
    assert!(lines.contains(&"[DEFAULT]".to_string()));
    assert!(lines.contains(&"user=u1".to_string()));
    assert!(lines.contains(&"region=us-ashburn-1".to_string()));
}

#[test]
fn default_profile_written_twice_stands_twice() {
    let mut disk = Disk::new();
    assert_eq!(disk.run(profile("u1", "fp1", "/k", "t1", "IAD")), Ok(Outcome::Written));
    assert_eq!(disk.run(profile("u1", "fp1", "/k", "t1", "IAD")), Ok(Outcome::Written));
    let text = disk.files.get(&disk.path()).unwrap().clone();
    let block = "[DEFAULT]\nuser=u1\nfingerprint=fp1\nkey_file=/k\ntenancy=t1\nregion=us-ashburn-1\n\n";
    assert_eq!(text, format!("{}{}", block, block));
    assert_eq!(text.matches("[DEFAULT]").count(), 2);
    let lines = match disk.run(content()) {
        Ok(Outcome::Lines(lines)) => lines,
        other => panic!("{:?}", other),
    };
    assert_eq!(lines.iter().filter(|l| l.as_str() == "[DEFAULT]").count(), 2);
    assert_eq!(lines.len(), 14);
}

#[test]
fn what_was_appended_is_read_back_unchanged() {
    let mut disk = Disk::new();
    assert_eq!(disk.run(profile("u1", "fp1", "/k", "t1", "fra")), Ok(Outcome::Written));
    assert_eq!(disk.run(credentials("u2", "fp2", "/k2", "secret")), Ok(Outcome::Written));
    let text = disk.files.get(&disk.path()).unwrap().clone();
    let lines = match disk.run(content()) {
        Ok(Outcome::Lines(lines)) => lines,
        other => panic!("{:?}", other),
    };
    let mut joined = String::new();
    for line in &lines {
        joined.push_str(line);
        joined.push('\n');
    }
    assert_eq!(joined, text);
    assert_eq!(
        text,
        "[DEFAULT]\nuser=u1\nfingerprint=fp1\nkey_file=/k\ntenancy=t1\nregion=eu-frankfurt-1\n\n[ADMIN_USER]\nuser=u2\nfingerprint=fp2\nkey_file=/k2\npass_phrase=secret\n\n"
    );
}

#[test]
fn profile_with_an_unknown_region_asks_for_nothing() {
    let task = profile("u1", "fp1", "/k", "t1", "ZZZ");
    assert!(task.finished());
    assert_eq!(task.action(), None);
    assert_eq!(task.outcome(), Some(Err(ConfigError::InvalidRegionCode)));
    let mut disk = Disk::new();
    assert_eq!(disk.run(oci_config_writer::account::default("u1", "fp1", "/k", "t1", "ZZZ")), Err(ConfigError::InvalidRegionCode));
    assert_eq!(disk.run(acc("u1", "fp1", "/k", "t1", "")), Err(ConfigError::InvalidRegionCode));
    assert!(disk.asked.is_empty());
}

#[test]
fn credentials_need_a_file_that_is_there() {
    let mut disk = Disk::new();
    assert_eq!(disk.run(credentials("u", "f", "k", "p")), Err(ConfigError::FileNotFound));
    assert_eq!(disk.run(create(".oci", "config")), Ok(Outcome::Path(disk.path())));
    assert_eq!(disk.run(credentials("u", "f", "k", "p")), Ok(Outcome::Written));
    assert_eq!(
        disk.files.get(&disk.path()).unwrap(),
        "[ADMIN_USER]\nuser=u\nfingerprint=f\nkey_file=k\npass_phrase=p\n\n"
    );
}

#[test]
fn create_gives_the_path_below_the_home_directory() {
    let mut disk = Disk::new();
    let path = match disk.run(create(".testdir", "config")) {
        Ok(Outcome::Path(path)) => path,
        other => panic!("{:?}", other),
    };
    assert!(path.ends_with("/.testdir/config"), "{}", path);
    assert!(path.starts_with('/'));
    assert_eq!(disk.run(create(".testdir", "config")), Ok(Outcome::Path(path.clone())));
    assert_eq!(disk.path(), path);
    assert_eq!(disk.run(permissions(".testdir/config")), Ok(Outcome::Readable));
    assert_eq!(disk.run(permissions(".testdir/other")), Err(ConfigError::FileNotFound));
    assert_eq!(disk.run(read(".testdir/config")), Ok(Outcome::Lines(vec![])));
}

#[test]
fn the_account_sections_go_to_the_ocloud_file() {
    let mut disk = Disk::new();
    assert_eq!(
        disk.run(oci_config_writer::account::default("u", "f", "k", "t", "phx")),
        Err(ConfigError::OpenFailed(Failure::of(Fault::NotFound)))
    );
    let path = match disk.run(create(".ocloud", "config")) {
        Ok(Outcome::Path(path)) => path,
        other => panic!("{:?}", other),
    };
    assert!(path.ends_with("/.ocloud/config"));
    assert_eq!(disk.run(oci_config_writer::account::default("u", "f", "k", "t", "phx")), Ok(Outcome::Written));
    assert_eq!(disk.run(admin("a", "b", "c", "d")), Ok(Outcome::Written));
    assert_eq!(disk.run(acc("u", "f", "k", "t", " Lon ")), Ok(Outcome::Written));
    assert_eq!(disk.run(usr("a", "b", "c", "d")), Ok(Outcome::Written));
    let block_one = "[DEFAULT]\nuser=u\nfingerprint=f\nkey_file=k\ntenancy=t\nregion=us-phoenix-1\n\n";
    let block_two = "[ADMIN_USER]\nuser=a\nfingerprint=b\nkey_file=c\npass_phrase=d\n\n";
    let block_three = "[DEFAULT]\nuser=u\nfingerprint=f\nkey_file=k\ntenancy=t\nregion=uk-london-1\n\n";
    assert_eq!(
        disk.files.get(&path).unwrap(),
        &format!("{}{}{}{}", block_one, block_two, block_three, block_two)
    );
}

#[test]
fn a_text_that_is_written_in_part_is_a_short_write() {
    let store = Store::new(".oci", "config");
    // Two characters, three bytes.
    let text = "a\u{e9}";
    let task = store.begin(home(), Goal::Append, text).advance(Event::Written(3));
    assert_eq!(task.outcome(), Some(Ok(Outcome::Written)));
    let task = store.begin(home(), Goal::Append, text).advance(Event::Written(2));
    assert_eq!(
        task.outcome(),
        Some(Err(ConfigError::AppendFailed(Failure::of(Fault::ShortWrite))))
    );
    let task = store.begin(home(), Goal::Append, text).advance(Event::Written(0));
    assert_eq!(
        task.outcome(),
        Some(Err(ConfigError::AppendFailed(Failure::of(Fault::ShortWrite))))
    );
    let task = store.begin(home(), Goal::Append, text).advance(Event::Written(4));
    assert_eq!(
        task.outcome(),
        Some(Err(ConfigError::AppendFailed(Failure::of(Fault::ShortWrite))))
    );
    let task = store.begin(home(), Goal::Append, "").advance(Event::Written(0));
    assert_eq!(task.outcome(), Some(Ok(Outcome::Written)));
}

#[test]
fn an_error_carries_the_error_of_the_platform() {
    let denied = || std::io::Error::new(std::io::ErrorKind::PermissionDenied, "no entry here");
    let store = Store::new(".oci", "config");
    let task = feed(
        store.begin(home(), Goal::Create, ""),
        vec![Event::Absent, Event::Failed(Failure::new(Fault::PermissionDenied, denied()))],
    );
    match task.outcome() {
        Some(Err(ConfigError::DirectoryCreateFailed(failure))) => {
            assert_eq!(failure.class, Fault::PermissionDenied);
            let source = failure.source.unwrap();
            assert_eq!(source.kind(), std::io::ErrorKind::PermissionDenied);
            assert_eq!(source.to_string(), "no entry here");
        }
        other => panic!("{:?}", other),
    }
    let task = feed(
        store.begin(home(), Goal::Create, ""),
        vec![
            Event::Present,
            Event::Absent,
            Event::Refused(Failure::new(Fault::Other, std::io::Error::other("disk full"))),
        ],
    );
    match task.outcome() {
        Some(Err(ConfigError::FileCreateFailed(failure))) => {
            assert_eq!(failure.class, Fault::Other);
            assert_eq!(failure.source.unwrap().to_string(), "disk full");
        }
        other => panic!("{:?}", other),
    }
    let task = store
        .begin(home(), Goal::Append, "t")
        .advance(Event::Refused(Failure::new(Fault::PermissionDenied, denied())));
    match task.outcome() {
        Some(Err(ConfigError::OpenFailed(failure))) => {
            assert_eq!(failure.source.unwrap().to_string(), "no entry here");
        }
        other => panic!("{:?}", other),
    }
    let task = store
        .begin(home(), Goal::Append, "t")
        .advance(Event::Failed(Failure::new(Fault::Other, std::io::Error::other("broken"))));
    match task.outcome() {
        Some(Err(ConfigError::AppendFailed(failure))) => {
            assert_eq!(failure.source.unwrap().to_string(), "broken");
        }
        other => panic!("{:?}", other),
    }
    let task = store
        .begin(home(), Goal::Read, "")
        .advance(Event::Failed(Failure::new(Fault::InvalidData, std::io::Error::other("bad"))));
    match task.outcome() {
        Some(Err(ConfigError::IoError(failure))) => {
            assert_eq!(failure.class, Fault::InvalidData);
            assert_eq!(failure.source.unwrap().to_string(), "bad");
        }
        other => panic!("{:?}", other),
    }
}

#[test]
fn failures_are_compared_by_their_class() {
    let one = Failure::new(Fault::NotFound, std::io::Error::other("one"));
    let other = Failure::new(Fault::NotFound, std::io::Error::other("other"));
    assert_eq!(one, other);
    assert_eq!(one, Failure::of(Fault::NotFound));
    assert_ne!(one, Failure::of(Fault::Other));
    assert!(Failure::of(Fault::ShortWrite).source.is_none());
    assert!(one.source.is_some());
}
