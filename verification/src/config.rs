//! Startup configuration. Loading it from disk is a collaborator concern;
//! the core only carries the values.

use vstd::prelude::*;

verus! {

#[derive(Debug, Clone)]
pub struct Config {
    pub token: String,
    pub enable_cache: bool,
    pub browser_name: String,
}

impl Config {
    pub fn new(token: String, enable_cache: bool, browser_name: String) -> (r: Self)
        ensures
            r.token == token,
            r.enable_cache == enable_cache,
            r.browser_name == browser_name,
    {
        Self { token, enable_cache, browser_name }
    }
}

} // verus!
