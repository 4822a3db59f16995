//! Channels and the groups that hold them.

use vstd::prelude::*;

verus! {

/// The name of the collection that holds the channel groups.
pub const COLLECTION_NAME: &'static str = "channels";

/// A channel: a named place that notes belong to.
#[derive(Debug, Clone, PartialEq, Eq)]
pub struct Channel {
    /// The channel's identifier, a UUID as a 128-bit number. No two
    /// channels share one.
    pub id: u128,
    pub name: String,
}

/// Channels in their order, under an optional heading.
#[derive(Debug, Clone, PartialEq, Eq)]
pub struct ChannelGroup {
    pub name: Option<String>,
    pub channels: Vec<Channel>,
}

/// All channel groups, in their order.
pub type Channels = Vec<ChannelGroup>;

} // verus!
