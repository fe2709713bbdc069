//! The config store: where the persisted record lives, and what a read of it
//! amounts to.
//!
//! Reading and writing the file is the host's business. This module names the
//! place and turns the outcome of a read into the record to go by.

use vstd::prelude::*;
use std::path::PathBuf;
use crate::mode::{Config, Mode};

verus! {

/// Declares `std::path::PathBuf`, a path of the host's file system, so that
/// one can be carried through. Nothing is claimed of what a path holds.
#[verifier::external_type_specification]
#[verifier::external_body]
pub struct ExPathBuf(PathBuf);

/// The directory below the user's home directory that holds the record.
pub const CONFIG_DIR: &'static str = ".smartpad";

/// The file in `CONFIG_DIR` that holds the record.
pub const CONFIG_FILE: &'static str = "config.json";

/// Where the record is kept: the file `file` in the directory `dir` below
/// `home`. On save the host creates `dir` where it is missing.
pub struct ConfigLocation {
    /// The user's home directory.
    pub home: PathBuf,
    /// The name of the directory below `home`.
    pub dir: &'static str,
    /// The name of the file in that directory.
    pub file: &'static str,
}

impl ConfigLocation {
    /// Whether this is the place of the record: the fixed names below some
    /// home directory.
    pub open spec fn is_the_store(&self) -> bool {
        self.dir@ == CONFIG_DIR@ && self.file@ == CONFIG_FILE@
    }
}

/// Asks `dirs::home_dir` for the user's home directory. The answer depends on
/// the environment and the user database, so nothing is claimed of it: it may
/// be any path, or none.
#[verifier::external_body]
fn home_dir() -> (home: Option<PathBuf>) {
    dirs::home_dir()
}

/// Returns the place of the record below `home`, if there is a home directory.
pub fn locate_under(home: Option<PathBuf>) -> (place: Option<ConfigLocation>)
    ensures
        place is Some <==> home is Some,
        place matches Some(location) ==> location.home == home->0 && location.is_the_store(),
{
    match home {
        Some(home) => Some(ConfigLocation { home, dir: CONFIG_DIR, file: CONFIG_FILE }),
        None => None,
    }
}

/// Returns the place of the record for the current user, or `None` when the
/// host knows of no home directory. Whatever the host answers, the names
/// below the home directory are the fixed ones.
pub fn config_location() -> (place: Option<ConfigLocation>)
    ensures
        place matches Some(location) ==> location.is_the_store(),
{
    locate_under(home_dir())
}

/// What came of reading the persisted record.
#[derive(Clone, Copy, Debug, PartialEq, Eq, Structural)]
pub enum StoreRead {
    /// There is nothing to read: no file, no directory, or no access.
    Missing,
    /// The file holds something that is not a record.
    Corrupt,
    /// The file holds this record.
    Record(Config),
}

/// The record to go by after a read: the stored one, or the default where
/// none could be had.
pub open spec fn loaded(read: StoreRead) -> Config {
    match read {
        StoreRead::Record(cfg) => cfg,
        StoreRead::Missing | StoreRead::Corrupt => Config { mode: Mode::Desktop },
    }
}

/// Returns the record to go by after a read. Never fails: a missing or
/// corrupt record counts as the default, desktop mode.
pub fn load_config(read: StoreRead) -> (cfg: Config)
    ensures
        cfg == loaded(read),
{
    match read {
        StoreRead::Record(cfg) => cfg,
        StoreRead::Missing | StoreRead::Corrupt => Config::default(),
    }
}

/// A missing or corrupt record always loads as desktop mode.
pub proof fn unreadable_record_loads_as_desktop(read: StoreRead)
    requires
        read is Missing || read is Corrupt,
    ensures
        loaded(read).mode == Mode::Desktop,
{
}

/// A record that was stored is loaded unchanged.
pub proof fn stored_record_loads_unchanged(cfg: Config)
    ensures
        loaded(StoreRead::Record(cfg)) == cfg,
{
}

} // verus!
