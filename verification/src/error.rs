//! What can go wrong, as values that a caller can tell apart.

use vstd::prelude::*;
use vstd::std_specs::cmp::PartialEqSpecImpl;

verus! {

/// The type `std::io::Error`: an error as the platform gave it. Nothing of
/// what it holds is visible here; it is carried to the caller as it came.
#[verifier::external_type_specification]
#[verifier::external_body]
pub struct ExIoError(std::io::Error);

/// The class of a file-system call that failed.
#[derive(Clone, Copy, Debug, PartialEq, Eq, Structural)]
pub enum Fault {
    /// The path does not exist.
    NotFound,
    /// The caller is not allowed to do this.
    PermissionDenied,
    /// What was read is no UTF-8 text.
    InvalidData,
    /// Fewer bytes were written than the text has.
    ShortWrite,
    /// Any other failure.
    Other,
}

/// A file-system call that failed: the class of the failure, and the error
/// that the platform gave, where it gave one.
#[derive(Debug)]
pub struct Failure {
    pub class: Fault,
    pub source: Option<std::io::Error>,
}

impl Failure {
    /// The failure of the given class, without an error of the platform.
    pub open spec fn plain(class: Fault) -> Failure {
        Failure { class, source: None }
    }

    /// The failure of the given class, without an error of the platform.
    pub fn of(class: Fault) -> (r: Failure)
        ensures
            r == Failure::plain(class),
    {
        Failure { class, source: None }
    }

    /// The failure of the given class with the error that the platform gave.
    pub fn new(class: Fault, source: std::io::Error) -> (r: Failure)
        ensures
            r == (Failure { class, source: Some(source) }),
    {
        Failure { class, source: Some(source) }
    }
}

/// Two failures are equal where they are of the same class: the errors of
/// the platform cannot be compared.
impl PartialEq for Failure {
    fn eq(&self, other: &Failure) -> (r: bool) {
        self.class == other.class
    }
}

impl PartialEqSpecImpl for Failure {
    open spec fn obeys_eq_spec() -> bool {
        true
    }

    open spec fn eq_spec(&self, other: &Failure) -> bool {
        self.class == other.class
    }
}

/// Why an operation on the configuration did not succeed.
#[derive(Debug, PartialEq)]
pub enum ConfigError {
    /// The platform gave no home directory.
    HomeDirectoryUnavailable,
    /// The configuration directory could not be created.
    DirectoryCreateFailed(Failure),
    /// The configuration file could not be created.
    FileCreateFailed(Failure),
    /// The file to read does not exist.
    FileNotFound,
    /// The file may not be opened for reading.
    PermissionDenied,
    /// The file could not be opened for appending.
    OpenFailed(Failure),
    /// The file was opened, but the text could not be written.
    AppendFailed(Failure),
    /// Any other failure of the file system.
    IoError(Failure),
    /// The region code is not in the catalog.
    InvalidRegionCode,
}

} // verus!
