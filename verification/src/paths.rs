//! File-system paths as the library sees them: values that the platform
//! hands out and that are only ever extended, never looked into.

use std::path::PathBuf;
use vstd::prelude::*;

verus! {

/// `std::path::PathBuf`, carried through the library as an opaque value.
#[verifier::external_type_specification]
#[verifier::external_body]
pub struct ExPathBuf(PathBuf);

/// The text that a path stands for.
pub uninterp spec fn path_text(p: PathBuf) -> Seq<char>;

/// The text of `base` extended by the relative path `tail`, as
/// `std::path::Path::join` forms it.
pub uninterp spec fn joined(base: Seq<char>, tail: Seq<char>) -> Seq<char>;

/// `PathBuf::from` on a string slice: the path that stands for exactly that
/// text.
#[verifier::external_body]
pub(crate) fn path_from(text: &str) -> (r: PathBuf)
    ensures
        path_text(r) == text@,
{
    PathBuf::from(text)
}

/// `Path::join` with a string slice: the result depends on the two texts
/// alone, and [`joined`] names it.
#[verifier::external_body]
pub(crate) fn path_join(base: &PathBuf, tail: &str) -> (r: PathBuf)
    ensures
        path_text(r) == joined(path_text(*base), tail@),
{
    base.join(tail)
}

/// `dirs::config_dir`: the user's configuration directory, where the
/// platform knows one. Nothing is claimed of the answer.
#[verifier::external_body]
pub(crate) fn config_dir() -> Option<PathBuf> {
    dirs::config_dir()
}

/// `dirs::home_dir`: the user's home directory, where the platform knows
/// one. Nothing is claimed of the answer.
#[verifier::external_body]
pub(crate) fn home_dir() -> Option<PathBuf> {
    dirs::home_dir()
}

/// `dirs::data_dir`: the user's data directory, where the platform knows
/// one. Nothing is claimed of the answer.
#[verifier::external_body]
pub(crate) fn data_dir() -> Option<PathBuf> {
    dirs::data_dir()
}

/// The path of the configuration file, given the directories that the
/// platform knows: below the configuration directory where there is one, else
/// below the home directory, else in the working directory.
pub fn config_path_from(config: Option<PathBuf>, home: Option<PathBuf>) -> (r: PathBuf)
    ensures
        path_text(r) == config_path_text(config, home),
{
    match config {
        Some(dir) => path_join(&dir, "noted/config.toml"),
        None => match home {
            Some(dir) => path_join(&dir, ".config/noted/config.toml"),
            None => path_from("config.toml"),
        },
    }
}

/// The text of the configuration file's path, given the directories that the
/// platform knows.
pub open spec fn config_path_text(config: Option<PathBuf>, home: Option<PathBuf>) -> Seq<char> {
    match config {
        Some(dir) => joined(path_text(dir), "noted/config.toml"@),
        None => match home {
            Some(dir) => joined(path_text(dir), ".config/noted/config.toml"@),
            None => "config.toml"@,
        },
    }
}

/// The path of the configuration file on this machine: the one that
/// [`config_path_from`] gives for the directories that the platform reports.
/// The home directory is asked for only where there is no configuration
/// directory.
pub fn get_config_path() -> (r: PathBuf)
    ensures
        exists|config: Option<PathBuf>, home: Option<PathBuf>| #[trigger]
            config_path_text(config, home) == path_text(r),
{
    let config = config_dir();
    match config {
        Some(dir) => config_path_from(Some(dir), None),
        None => config_path_from(None, home_dir()),
    }
}

} // verus!
