//! Plain data carried through the cache slots.
//!
//! The remote client's wire types stay outside the core; each value that the
//! core reads or stores is held here as plain fields (identifiers as `u64`,
//! text as `String`), so the cache logic can be reasoned about directly.

use vstd::prelude::*;

verus! {

/// One chat message as the cache holds it: identifier, origin channel,
/// author's display name, body text, and the attachment links.
#[derive(Debug, Clone)]
pub struct Message {
    pub id: u64,
    pub channel_id: u64,
    pub author_name: String,
    pub content: String,
    pub attachment_urls: Vec<String>,
}

#[derive(Debug, Clone, PartialEq, Eq, Structural)]
pub enum ChannelKind {
    Text,
    Voice,
    Other,
}

#[derive(Debug, Clone)]
pub struct Channel {
    pub id: u64,
    pub name: String,
    pub kind: ChannelKind,
}

#[derive(Debug, Clone)]
pub struct Member {
    pub user_id: u64,
    pub username: String,
}

/// A server's preview card: member counts alongside the identity.
#[derive(Debug, Clone)]
pub struct GuildPreview {
    pub id: u64,
    pub name: String,
    pub member_count: u64,
    pub online_count: u64,
}

} // verus!
