//! Where the local database lives: a data directory, resolved from the
//! `ENJO_DATA_DIR` override or the platform's per-user data directory, and
//! the database file `enjo.db` inside it.

use vstd::prelude::*;
use std::path::PathBuf;

verus! {

/// Declares `std::path::PathBuf` so a configuration can hold one; its
/// contents are opaque here.
#[verifier::external_type_specification]
#[verifier::external_body]
pub struct ExPathBuf(PathBuf);

/// The database file name inside the data directory.
pub const DB_FILE_NAME: &'static str = "enjo.db";

/// Environment variable that overrides the resolved data directory.
pub const DATA_DIR_ENV: &'static str = "ENJO_DATA_DIR";

/// The path `std::path::Path::join` gives for a directory and a file name.
/// Joining is a pure function of the two paths, so equal arguments give
/// equal paths; what the joined path holds is not modelled here.
pub uninterp spec fn joined_path(dir: PathBuf, name: Seq<char>) -> PathBuf;

/// Joins a file name onto a directory with `std::path::Path::join`. The
/// contract claims only that the result is [`joined_path`] of the directory
/// and the name; std's path rules (separators, absolute names replacing the
/// directory) are left unsaid.
#[verifier::external_body]
fn join_file(dir: &PathBuf, name: &str) -> (r: PathBuf)
    ensures
        r == joined_path(*dir, name@),
{
    dir.join(name)
}

/// Resolved filesystem paths for the running enjo instance.
#[derive(Debug)]
pub struct Config {
    data_dir: PathBuf,
}

impl Config {
    /// The data directory the configuration holds.
    pub closed spec fn spec_data_dir(&self) -> PathBuf {
        self.data_dir
    }

    /// Construct a `Config` from an explicit data directory without touching
    /// the filesystem.
    pub fn with_data_dir(data_dir: PathBuf) -> (r: Config)
        ensures
            r.spec_data_dir() == data_dir,
    {
        Config { data_dir }
    }

    /// Path to the SQLite database file (`<data_dir>/enjo.db`).
    pub fn db_path(&self) -> (r: PathBuf)
        ensures
            r == joined_path(self.spec_data_dir(), DB_FILE_NAME@),
    {
        join_file(&self.data_dir, DB_FILE_NAME)
    }

    /// The resolved data directory.
    pub fn data_dir(&self) -> (r: &PathBuf)
        ensures
            *r == self.spec_data_dir(),
    {
        &self.data_dir
    }
}

/// The override a value of `ENJO_DATA_DIR` gives: the value itself when it
/// is set and non-empty, else none.
pub fn env_override(value: Option<String>) -> (r: Option<String>)
    ensures
        match value {
            Some(v) => if v@.len() > 0 {
                r == Some(v)
            } else {
                r is None
            },
            None => r is None,
        },
{
    match value {
        Some(v) => {
            if v.as_str().unicode_len() > 0 {
                Some(v)
            } else {
                None
            }
        },
        None => None,
    }
}

} // verus!
