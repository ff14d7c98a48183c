//! A connected server as the cache holds it.

use vstd::prelude::*;
use crate::model::{Channel, GuildPreview};

verus! {

/// One server the user is a member of. Channel lists and the preview start
/// empty and are filled by later jobs.
#[derive(Debug, Clone)]
pub struct Server {
    pub id: u64,
    pub name: String,
    pub icon: Option<String>,
    pub owner: bool,
    pub permissions: u64,
    pub features: Vec<String>,
    pub text_channels: Vec<Channel>,
    pub voice_channels: Vec<Channel>,
    pub preview: Option<GuildPreview>,
}

impl Server {
    /// Builds a server entry from the listing fields; channels and preview
    /// are not part of the listing and start empty.
    pub fn new(id: u64, name: String, icon: Option<String>, owner: bool, permissions: u64, features: Vec<String>) -> (r: Self)
        ensures
            r.id == id,
            r.name == name,
            r.icon == icon,
            r.owner == owner,
            r.permissions == permissions,
            r.features == features,
            r.text_channels@ == Seq::<Channel>::empty(),
            r.voice_channels@ == Seq::<Channel>::empty(),
            r.preview is None,
    {
        let r = Self {
            id,
            name,
            icon,
            owner,
            permissions,
            features,
            text_channels: Vec::new(),
            voice_channels: Vec::new(),
            preview: None,
        };
        proof {
            assert(r.text_channels@ =~= Seq::<Channel>::empty());
            assert(r.voice_channels@ =~= Seq::<Channel>::empty());
        }
        r
    }
}

} // verus!
