//! Management of an Oracle Cloud Infrastructure configuration file: the text of
//! its sections, the catalog of region codes, and the decisions taken while the
//! file is created, checked, read and appended to.

pub mod account;
pub mod config;
pub mod disk;
pub mod error;
pub mod file;
pub mod log;
pub mod region;
pub mod section;
pub mod task;
pub mod tenancy;
pub mod text;
pub mod user;

use crate::error::ConfigError;
use crate::file::{started, Store};
use crate::region::{identifier, resolve, standard};
use crate::section::{admin_entry, admin_section, default_entry, default_section};
use crate::task::{failed, Goal, Task};
use vstd::prelude::*;

verus! {

/// The directory of the configuration below the home directory.
pub const DIR: &'static str = ".oci";

/// The name of the configuration file.
pub const NAME: &'static str = "config";

/// A tenancy profile: the user's OCID, the fingerprint of the key, the path to
/// the private key, the OCID of the tenancy and the identifier of the region.
#[derive(Debug)]
pub struct Profile {
    pub user: String,
    pub fingerprint: String,
    pub key_file: String,
    pub tenancy: String,
    pub region: String,
}

impl Profile {
    /// The profile of a tenancy whose home region is given by its code, as
    /// the standard catalog resolves it. A code that the catalog does not
    /// know gives `InvalidRegionCode`. The other fields are taken as they are.
    pub fn new(user: &str, fingerprint: &str, key_file: &str, tenancy: &str, home: &str) -> (r:
        Result<Profile, ConfigError>)
        ensures
            match r {
                Ok(p) => {
                    &&& p.user@ == user@
                    &&& p.fingerprint@ == fingerprint@
                    &&& p.key_file@ == key_file@
                    &&& p.tenancy@ == tenancy@
                    &&& resolve(standard(), home@) == Some(p.region@)
                },
                Err(e) => resolve(standard(), home@) is None && e
                    == ConfigError::InvalidRegionCode,
            },
    {
        match identifier(home) {
            Ok(region) => Ok(
                Profile {
                    user: user.to_string(),
                    fingerprint: fingerprint.to_string(),
                    key_file: key_file.to_string(),
                    tenancy: tenancy.to_string(),
                    region,
                },
            ),
            Err(e) => Err(e),
        }
    }

    /// The `[DEFAULT]` section that holds this profile.
    pub fn profile_entry(&self) -> (r: String)
        ensures
            r@ == default_section(
                self.user@,
                self.fingerprint@,
                self.key_file@,
                self.tenancy@,
                self.region@,
            ),
    {
        default_entry(
            self.user.as_str(),
            self.fingerprint.as_str(),
            self.key_file.as_str(),
            self.tenancy.as_str(),
            self.region.as_str(),
        )
    }
}

/// The credentials of an administrator: the user's OCID, the fingerprint of
/// the key, the path to the private key and its pass phrase.
#[derive(Debug)]
pub struct Credentials {
    pub user: String,
    pub fingerprint: String,
    pub key_file: String,
    pub pass_phrase: String,
}

impl Credentials {
    /// The credentials with the given fields, taken as they are.
    pub fn new(user: &str, fingerprint: &str, key_file: &str, pass_phrase: &str) -> (r: Credentials)
        ensures
            r.user@ == user@,
            r.fingerprint@ == fingerprint@,
            r.key_file@ == key_file@,
            r.pass_phrase@ == pass_phrase@,
    {
        Credentials {
            user: user.to_string(),
            fingerprint: fingerprint.to_string(),
            key_file: key_file.to_string(),
            pass_phrase: pass_phrase.to_string(),
        }
    }

    /// The `[ADMIN_USER]` section that holds these credentials.
    pub fn admin_entry(&self) -> (r: String)
        ensures
            r@ == admin_section(self.user@, self.fingerprint@, self.key_file@, self.pass_phrase@),
    {
        admin_entry(
            self.user.as_str(),
            self.fingerprint.as_str(),
            self.key_file.as_str(),
            self.pass_phrase.as_str(),
        )
    }
}

/// The task that writes a tenancy profile to the configuration file: it makes
/// sure that `.oci/config` below the home directory exists and can be read,
/// and appends the `[DEFAULT]` section. `home` is the code of the home region.
/// Where the standard catalog does not know the code, the task has failed
/// with `InvalidRegionCode` and asks for nothing.
pub fn profile(user: &str, fingerprint: &str, key_file: &str, tenancy: &str, home: &str) -> (t:
    Task)
    ensures
        match resolve(standard(), home@) {
            Some(region) => started(
                t@,
                DIR@,
                NAME@,
                Goal::Write,
                default_section(user@, fingerprint@, key_file@, tenancy@, region),
            ),
            None => t@ == failed(Goal::Write, ConfigError::InvalidRegionCode),
        },
{
    match Profile::new(user, fingerprint, key_file, tenancy, home) {
        Ok(default_profile) => {
            let text = default_profile.profile_entry();
            Store::new(DIR, NAME).start(Goal::Write, text.as_str())
        },
        Err(e) => Task::failed(Goal::Write, e),
    }
}

/// The task that adds the credentials of an administrator to the
/// configuration file: it makes sure that `.oci/config` below the home
/// directory can be read, and appends the `[ADMIN_USER]` section.
pub fn credentials(user: &str, fingerprint: &str, key_file: &str, pass_phrase: &str) -> (t: Task)
    ensures
        started(
            t@,
            DIR@,
            NAME@,
            Goal::CheckedAppend,
            admin_section(user@, fingerprint@, key_file@, pass_phrase@),
        ),
{
    let admin = Credentials::new(user, fingerprint, key_file, pass_phrase);
    let text = admin.admin_entry();
    Store::new(DIR, NAME).start(Goal::CheckedAppend, text.as_str())
}

/// The task that reads `.oci/config` below the home directory and ends with
/// its lines.
pub fn content() -> (t: Task)
    ensures
        started(t@, DIR@, NAME@, Goal::Read, Seq::empty()),
{
    proof {
        reveal_strlit("");
    }
    let t = Store::new(DIR, NAME).start(Goal::Read, "");
    assert(""@ =~= Seq::<char>::empty());
    t
}

} // verus!
