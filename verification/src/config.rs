//! The one configurable setting the dashboard reads at startup.
//!
//! Locating and parsing the configuration file happens outside the
//! library; a `Config` carries the resulting value.

use vstd::prelude::*;

verus! {

/// Startup configuration.
#[derive(Debug)]
pub struct Config {
    /// Directory the playlists are loaded from, as text.
    pub music_dir: String,
}

impl Config {
    pub fn new(music_dir: String) -> (r: Config)
        ensures
            r.music_dir == music_dir,
    {
        Config { music_dir }
    }
}

} // verus!
