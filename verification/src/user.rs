//! The users that administer a tenancy.

use crate::account::{DIR, NAME};
use crate::file::{started, Store};
use crate::section::{admin_entry, admin_section};
use crate::task::{Goal, Task};
use vstd::prelude::*;

verus! {

/// A user, as the `[ADMIN_USER]` section holds it.
#[derive(Debug)]
pub struct Usr {
    pub user: String,
    pub fingerprint: String,
    pub key_file: String,
    pub pass_phrase: String,
}

impl Usr {
    /// The user with the given fields.
    pub fn new(user: String, fingerprint: String, key_file: String, pass_phrase: String) -> (r: Usr)
        ensures
            r.user == user,
            r.fingerprint == fingerprint,
            r.key_file == key_file,
            r.pass_phrase == pass_phrase,
    {
        Usr { user, fingerprint, key_file, pass_phrase }
    }
}

/// The task that appends a user, as an `[ADMIN_USER]` section, to
/// `.ocloud/config` below the home directory.
pub fn usr(user: &str, fingerprint: &str, key_file: &str, pass_phrase: &str) -> (t: Task)
    ensures
        started(
            t@,
            DIR@,
            NAME@,
            Goal::Append,
            admin_section(user@, fingerprint@, key_file@, pass_phrase@),
        ),
{
    let record = Usr::new(
        user.to_string(),
        fingerprint.to_string(),
        key_file.to_string(),
        pass_phrase.to_string(),
    );
    let text = admin_entry(
        record.user.as_str(),
        record.fingerprint.as_str(),
        record.key_file.as_str(),
        record.pass_phrase.as_str(),
    );
    Store::new(DIR, NAME).start(Goal::Append, text.as_str())
}

} // verus!
