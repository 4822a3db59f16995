//! Core of a desktop note-taking application: its configuration, the paths it
//! keeps its files under, the records it stores, the component tree of its
//! window and the registry of components that can be previewed alone.

pub mod config;
pub mod gui;
pub mod paths;
pub mod preview;
pub mod schema;

use vstd::prelude::*;

verus! {

/// The name that the application's log lines go under.
pub const LOG_TARGET: &'static str = "noted";

/// The filter of the log: which levels are written, for the application
/// and for everything else. A debug build writes more.
pub open spec fn log_filter_text(debug_build: bool) -> Seq<char> {
    if debug_build {
        "noted=debug,info"@
    } else {
        "noted=info,warn"@
    }
}

/// The filter that the log is set up with.
pub fn log_filter(debug_build: bool) -> (r: &'static str)
    ensures
        r@ == log_filter_text(debug_build),
{
    if debug_build {
        "noted=debug,info"
    } else {
        "noted=info,warn"
    }
}

} // verus!
