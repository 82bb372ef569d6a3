//! A named, pre-materialized list of tracks.
//!
//! Playlists are read from disk once, outside the library, and handed in
//! as plain values; nothing here re-reads storage.

use crate::track::Track;
use vstd::prelude::*;

verus! {

/// A playlist: a title and the tracks it resolves to.
#[derive(Debug)]
pub struct Playlist {
    pub title: String,
    pub tracks: Vec<Track>,
    /// Path of the playlist file the list was loaded from, as text.
    pub path: String,
}

/// Sum of the durations, in milliseconds, of a sequence of tracks.
pub open spec fn sum_duration_ms(tracks: Seq<Track>) -> int
    decreases tracks.len(),
{
    if tracks.len() == 0 {
        0
    } else {
        sum_duration_ms(tracks.drop_last()) + tracks.last().total_duration_ms
    }
}

impl Playlist {
    pub fn new(title: String, tracks: Vec<Track>, path: String) -> (r: Playlist)
        ensures
            r.title == title,
            r.tracks == tracks,
            r.path == path,
    {
        Playlist { title, tracks, path }
    }

    /// Total playing time of the playlist in milliseconds.
    pub fn get_duration(&self) -> (r: u64)
        requires
            sum_duration_ms(self.tracks@) <= u64::MAX,
        ensures
            r == sum_duration_ms(self.tracks@),
    {
        let mut total: u64 = 0;
        let mut i: usize = 0;
        while i < self.tracks.len()
            invariant
                i <= self.tracks@.len(),
                total == sum_duration_ms(self.tracks@.take(i as int)),
                sum_duration_ms(self.tracks@) <= u64::MAX,
            decreases self.tracks@.len() - i,
        {
            proof {
                lemma_sum_prefix(self.tracks@, i + 1);
                lemma_sum_nonneg(self.tracks@.take(i as int));
                assert(self.tracks@.take(i + 1).drop_last() =~= self.tracks@.take(i as int));
            }
            total = total + self.tracks[i].total_duration_ms;
            i = i + 1;
        }
        proof {
            assert(self.tracks@.take(self.tracks@.len() as int) =~= self.tracks@);
        }
        total
    }
}

/// Every track sum is non-negative.
proof fn lemma_sum_nonneg(tracks: Seq<Track>)
    ensures
        sum_duration_ms(tracks) >= 0,
    decreases tracks.len(),
{
    if tracks.len() > 0 {
        lemma_sum_nonneg(tracks.drop_last());
    }
}

/// A prefix of a track sequence never sums to more than the whole.
proof fn lemma_sum_prefix(tracks: Seq<Track>, i: int)
    requires
        0 <= i <= tracks.len(),
    ensures
        sum_duration_ms(tracks.take(i)) <= sum_duration_ms(tracks),
    decreases tracks.len() - i,
{
    if i < tracks.len() {
        lemma_sum_prefix(tracks, i + 1);
        assert(tracks.take(i + 1).drop_last() =~= tracks.take(i));
        assert(tracks.take(i + 1).last().total_duration_ms >= 0);
    } else {
        assert(tracks.take(i) =~= tracks);
    }
}

/// Two playlists carrying the same values. A clone is `like` its source;
/// this is the strongest statement a clone of a track container supports.
pub open spec fn playlist_like(a: Playlist, b: Playlist) -> bool {
    a.title == b.title && a.tracks@ == b.tracks@ && a.path == b.path
}

/// Two playlist sequences carrying the same values, element by element.
pub open spec fn playlists_like(a: Seq<Playlist>, b: Seq<Playlist>) -> bool {
    a.len() == b.len() && forall|i: int| 0 <= i < a.len() ==> playlist_like(#[trigger] a[i], b[i])
}

/// A copy of a playlist table, for a panel to own.
pub fn clone_playlists(src: &Vec<Playlist>) -> (r: Vec<Playlist>)
    ensures
        playlists_like(r@, src@),
{
    let r = src.clone();
    proof {
        assert forall|i: int| 0 <= i < r@.len() implies playlist_like(#[trigger] r@[i], src@[i]) by {
            assert(cloned::<Playlist>(src@[i], r@[i]));
        }
    }
    r
}

impl Clone for Playlist {
    fn clone(&self) -> (r: Self)
        ensures
            r.title == self.title,
            r.tracks@ == self.tracks@,
            r.path == self.path,
    {
        let tracks = self.tracks.clone();
        proof {
            assert(tracks@ =~= self.tracks@);
        }
        Playlist { title: self.title.clone(), tracks, path: self.path.clone() }
    }
}

} // verus!
