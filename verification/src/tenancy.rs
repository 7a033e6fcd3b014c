//! The account data of a tenancy.

use crate::account::{DIR, NAME};
use crate::error::ConfigError;
use crate::file::{started, Store};
use crate::region::{identifier, resolve, standard};
use crate::section::{default_entry, default_section};
use crate::task::{failed, Goal, Task};
use vstd::prelude::*;

verus! {

/// The account of a tenancy, as the `[DEFAULT]` section holds it.
#[derive(Debug)]
pub struct Acc {
    pub user: String,
    pub fingerprint: String,
    pub key_file: String,
    pub tenancy: String,
    pub region: String,
}

impl Acc {
    /// The account with the given fields. `region` is the identifier of the region.
    pub fn new(
        user: String,
        fingerprint: String,
        key_file: String,
        tenancy: String,
        region: String,
    ) -> (r: Acc)
        ensures
            r.user == user,
            r.fingerprint == fingerprint,
            r.key_file == key_file,
            r.tenancy == tenancy,
            r.region == region,
    {
        Acc { user, fingerprint, key_file, tenancy, region }
    }
}

/// The task that appends the account of a tenancy, as a `[DEFAULT]` section,
/// to `.ocloud/config` below the home directory. `region` is the code of the
/// region. Where the standard catalog does not know the code, the task has
/// failed with `InvalidRegionCode` and asks for nothing.
pub fn acc(user: &str, fingerprint: &str, key_file: &str, tenancy: &str, region: &str) -> (t: Task)
    ensures
        match resolve(standard(), region@) {
            Some(id) => started(
                t@,
                DIR@,
                NAME@,
                Goal::Append,
                default_section(user@, fingerprint@, key_file@, tenancy@, id),
            ),
            None => t@ == failed(Goal::Append, ConfigError::InvalidRegionCode),
        },
{
    match identifier(region) {
        Ok(id) => {
            let account = Acc::new(
                user.to_string(),
                fingerprint.to_string(),
                key_file.to_string(),
                tenancy.to_string(),
                id,
            );
            let text = default_entry(
                account.user.as_str(),
                account.fingerprint.as_str(),
                account.key_file.as_str(),
                account.tenancy.as_str(),
                account.region.as_str(),
            );
            Store::new(DIR, NAME).start(Goal::Append, text.as_str())
        },
        Err(e) => Task::failed(Goal::Append, e),
    }
}

} // verus!
