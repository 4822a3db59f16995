//! Notes.

use vstd::prelude::*;

verus! {

/// A point in time, in UTC: the seconds since the start of 1970 and the
/// nanoseconds into that second.
#[derive(Debug, Clone, Copy, PartialEq, Eq, Structural)]
pub struct Timestamp {
    pub seconds: i64,
    pub nanoseconds: u32,
}

/// A note. Its text is stored elsewhere, under `content_id`.
#[derive(Debug, Clone, PartialEq, Eq)]
pub struct Note {
    /// The note's identifier, a UUID as a 128-bit number. No two notes
    /// share one.
    pub id: u128,
    pub created_at: Timestamp,
    /// The channel that the note belongs to. Nothing in the store checks
    /// that there is such a channel.
    pub channel_id: u128,
    pub content_id: u128,
}

} // verus!
