//! The records that the application stores, and where its database lies.

use crate::config::{text_of, AppConfig};
use crate::paths::{data_dir, home_dir, joined, path_from, path_join, path_text};
use std::path::PathBuf;
use vstd::prelude::*;

pub mod channels;
pub mod notes;

pub use channels::{Channel, ChannelGroup, Channels, COLLECTION_NAME};
pub use notes::{Note, Timestamp};

verus! {

/// The text of the directory that holds the database, given the override
/// from the configuration and the directories that the platform knows: the
/// override where there is one; else `noted` below the data directory, below
/// the home directory where there is no data directory, and below the
/// working directory where there is neither.
pub open spec fn db_dir_text(
    custom: Option<Seq<char>>,
    data: Option<PathBuf>,
    home: Option<PathBuf>,
) -> Seq<char> {
    match custom {
        Some(dir) => dir,
        None => joined(
            match data {
                Some(dir) => path_text(dir),
                None => match home {
                    Some(dir) => path_text(dir),
                    None => "."@,
                },
            },
            "noted"@,
        ),
    }
}

/// The text of the database file's path: `noted.db` in the directory that
/// [`db_dir_text`] gives.
pub open spec fn db_path_text(
    custom: Option<Seq<char>>,
    data: Option<PathBuf>,
    home: Option<PathBuf>,
) -> Seq<char> {
    joined(db_dir_text(custom, data, home), "noted.db"@)
}

/// The path of the database file, given the configuration and the
/// directories that the platform knows.
pub fn db_path_from(config: &AppConfig, data: Option<PathBuf>, home: Option<PathBuf>) -> (r:
    PathBuf)
    ensures
        path_text(r) == db_path_text(config@.storage.path, data, home),
{
    let dir = match &config.storage.path {
        Some(custom) => path_from(custom.as_str()),
        None => {
            let base = match data {
                Some(dir) => dir,
                None => match home {
                    Some(dir) => dir,
                    None => path_from("."),
                },
            };
            path_join(&base, "noted")
        },
    };
    path_join(&dir, "noted.db")
}

/// The path of the database file on this machine: the one that
/// [`db_path_from`] gives for the directories that the platform reports. The
/// home directory is asked for only where there is no data directory.
pub fn get_db_path(config: &AppConfig) -> (r: PathBuf)
    ensures
        exists|data: Option<PathBuf>, home: Option<PathBuf>| #[trigger]
            db_path_text(config@.storage.path, data, home) == path_text(r),
        config@.storage.path matches Some(dir) ==> path_text(r) == joined(dir, "noted.db"@),
{
    match &config.storage.path {
        Some(_) => db_path_from(config, None, None),
        None => {
            let data = data_dir();
            match data {
                Some(dir) => db_path_from(config, Some(dir), None),
                None => db_path_from(config, None, home_dir()),
            }
        },
    }
}

} // verus!
