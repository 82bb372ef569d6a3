//! A single playable track: where it lives on disk and what its tag says.
//!
//! Reading the tag and decoding the audio happen outside the library; a
//! `Track` carries the already-extracted plain values.

use crate::duration_label::hhmmss_label;
use crate::duration_label::hhmmss_of;
use vstd::prelude::*;

verus! {

/// A playable track.
#[derive(Debug)]
pub struct Track {
    /// Path of the audio file, as text.
    pub path: String,
    /// Title from the tag, empty when the tag has none.
    pub title: String,
    /// Artist from the tag, empty when the tag has none.
    pub artist: String,
    /// Total playing time in milliseconds.
    pub total_duration_ms: u64,
}

impl Track {
    pub fn new(path: String, title: String, artist: String, total_duration_ms: u64) -> (r: Track)
        ensures
            r.path == path,
            r.title == title,
            r.artist == artist,
            r.total_duration_ms == total_duration_ms,
    {
        Track { path, title, artist, total_duration_ms }
    }

    /// The three columns a track shows in a table: title, artist and the
    /// clock label of its duration.
    pub fn data(&self) -> (r: Vec<String>)
        ensures
            r@.len() == 3,
            r@[0] == self.title,
            r@[1] == self.artist,
            r@[2]@ == hhmmss_of(self.total_duration_ms / 1000),
    {
        let mut row: Vec<String> = Vec::new();
        row.push(self.title.clone());
        row.push(self.artist.clone());
        row.push(hhmmss_label(self.total_duration_ms / 1000));
        row
    }
}

impl Clone for Track {
    fn clone(&self) -> (r: Self)
        ensures
            r == *self,
    {
        Track {
            path: self.path.clone(),
            title: self.title.clone(),
            artist: self.artist.clone(),
            total_duration_ms: self.total_duration_ms,
        }
    }
}

} // verus!
