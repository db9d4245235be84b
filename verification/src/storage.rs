//! Storage-layer settings, errors and value serialization.

use vstd::prelude::*;

verus! {

/// The error type for I/O operations with storage.
///
/// These errors are fatal to the node: in the case of database issues
/// the system stops working and is resumed from a backup or by
/// rebooting.  They belong to a different subsystem than the per-attempt
/// channel failures.
#[derive(Debug)]
pub struct StorageError {
    message: String,
}

impl StorageError {
    /// Creates a new storage error with an information message about
    /// the reason.
    pub fn new(message: String) -> (r: Self)
        ensures
            r.message() == message@,
    {
        StorageError { message }
    }

    /// The information message of the error.
    pub closed spec fn message(&self) -> Seq<char> {
        self.message@
    }

    /// A description of the error for operators.
    pub fn description(&self) -> (r: &str)
        ensures
            r@ == self.message(),
    {
        self.message.as_str()
    }
}

/// Options for the underlying database.
#[derive(Debug, Clone, Copy)]
pub struct DbOptions {
    /// Number of open files that can be used by the database, or `None`
    /// for no limit.
    pub max_open_files: Option<i32>,
    /// Whether a missing database is created at the configured path.
    pub create_if_missing: bool,
}

impl Default for DbOptions {
    /// No limit on open files, and a missing database is created.
    fn default() -> (r: Self)
        ensures
            r.max_open_files is None,
            r.create_if_missing,
    {
        Self { max_open_files: None, create_if_missing: true }
    }
}

/// A value the storage layer can hold: it serializes to bytes and is
/// rebuilt from well-formed bytes, with `from_bytes` inverting
/// `into_bytes` byte for byte.
pub trait StorageValue: Sized {
    /// Which byte strings deserialize to a value.
    spec fn wf_bytes(bytes: Seq<u8>) -> bool;

    /// The serialized form of the value.
    spec fn bytes_view(&self) -> Seq<u8>;

    /// Serializes the value: exactly its serialized form, with no
    /// re-encoding.
    fn into_bytes(self) -> (r: Vec<u8>)
        ensures
            r@ == self.bytes_view(),
    ;

    /// Rebuilds a value from its serialized form: the result's
    /// serialized form is the input itself.
    fn from_bytes(value: Vec<u8>) -> (r: Self)
        requires
            Self::wf_bytes(value@),
        ensures
            r.bytes_view() == value@,
    ;
}

} // verus!
