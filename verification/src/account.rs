//! Sections for the configuration file `.ocloud/config`: the tenancy profile
//! with its defaults, and the credentials of an administrator.

use crate::error::ConfigError;
use crate::file::{started, Store};
use crate::region::{identifier, resolve, standard};
use crate::section::{admin_entry, admin_section, default_entry, default_section};
use crate::task::{failed, Goal, Task};
use vstd::prelude::*;

verus! {

/// The directory of this configuration below the home directory.
pub const DIR: &'static str = ".ocloud";

/// The name of this configuration file.
pub const NAME: &'static str = "config";

/// What a `[DEFAULT]` section holds.
#[derive(Debug)]
pub struct Default {
    pub user: String,
    pub fingerprint: String,
    pub key_file: String,
    pub tenancy: String,
    pub region: String,
}

impl Default {
    /// The record with the given fields. `region` is the identifier of the region.
    pub fn new(
        user: String,
        fingerprint: String,
        key_file: String,
        tenancy: String,
        region: String,
    ) -> (r: Default)
        ensures
            r.user == user,
            r.fingerprint == fingerprint,
            r.key_file == key_file,
            r.tenancy == tenancy,
            r.region == region,
    {
        Default { user, fingerprint, key_file, tenancy, region }
    }
}

/// The task that appends a `[DEFAULT]` section to `.ocloud/config` below the
/// home directory. `region` is the code of the region. Where the standard
/// catalog does not know the code, the task has failed with
/// `InvalidRegionCode` and asks for nothing.
pub fn default(user: &str, fingerprint: &str, key_file: &str, tenancy: &str, region: &str) -> (t:
    Task)
    ensures
        match resolve(standard(), region@) {
            Some(id) => started(
                t@,
                DIR@,
                NAME@,
                Goal::Append,
                default_section(user@, fingerprint@, key_file@, tenancy@, id),
            ),
            None => t@ == failed(Goal::Append, ConfigError::InvalidRegionCode),
        },
{
    match identifier(region) {
        Ok(id) => {
            let record = Default::new(
                user.to_string(),
                fingerprint.to_string(),
                key_file.to_string(),
                tenancy.to_string(),
                id,
            );
            let text = default_entry(
                record.user.as_str(),
                record.fingerprint.as_str(),
                record.key_file.as_str(),
                record.tenancy.as_str(),
                record.region.as_str(),
            );
            Store::new(DIR, NAME).start(Goal::Append, text.as_str())
        },
        Err(e) => Task::failed(Goal::Append, e),
    }
}

/// What an `[ADMIN_USER]` section holds.
#[derive(Debug)]
pub struct Admin {
    pub user: String,
    pub fingerprint: String,
    pub key_file: String,
    pub pass_phrase: String,
}

impl Admin {
    /// The record with the given fields.
    pub fn new(user: String, fingerprint: String, key_file: String, pass_phrase: String) -> (r:
        Admin)
        ensures
            r.user == user,
            r.fingerprint == fingerprint,
            r.key_file == key_file,
            r.pass_phrase == pass_phrase,
    {
        Admin { user, fingerprint, key_file, pass_phrase }
    }
}

/// The task that appends an `[ADMIN_USER]` section to `.ocloud/config` below
/// the home directory.
pub fn admin(user: &str, fingerprint: &str, key_file: &str, pass_phrase: &str) -> (t: Task)
    ensures
        started(
            t@,
            DIR@,
            NAME@,
            Goal::Append,
            admin_section(user@, fingerprint@, key_file@, pass_phrase@),
        ),
{
    let record = Admin::new(
        user.to_string(),
        fingerprint.to_string(),
        key_file.to_string(),
        pass_phrase.to_string(),
    );
    let text = admin_entry(
        record.user.as_str(),
        record.fingerprint.as_str(),
        record.key_file.as_str(),
        record.pass_phrase.as_str(),
    );
    Store::new(DIR, NAME).start(Goal::Append, text.as_str())
}

} // verus!
