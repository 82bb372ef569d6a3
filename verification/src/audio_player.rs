//! The playback model: the queue, the current track, the history, and
//! what the audio sink has been asked to do.
//!
//! The real sink lives outside the library. Every decision here appends
//! commands to `pending`; the runner drains them with [`AudioPlayer::take_commands`]
//! and reports what it sees in the sink back through [`AudioPlayer::observe_sink`].

use crate::duration_label::hhmmss_label;
use crate::duration_label::hhmmss_of;
use crate::track::Track;
use vstd::prelude::*;
use vstd::string::StringExecFns;

verus! {

/// One order for the audio sink.
#[derive(Debug)]
pub enum SinkCommand {
    /// Drop whatever the sink holds.
    Clear,
    /// Queue this track's audio in the sink.
    Append(Track),
    /// Let the sink play.
    Play,
    /// Hold the sink.
    Pause,
    /// Stop the sink and drop its sources.
    Stop,
    /// Skip the source the sink is on.
    SkipOne,
}

/// The playback state machine.
#[derive(Debug)]
pub struct AudioPlayer {
    /// The track whose audio was last handed to the sink.
    pub current: Option<Track>,
    /// Tracks waiting to play; the last element plays next.
    pub queue: Vec<Track>,
    /// Tracks that finished playing, oldest first.
    pub history: Vec<Track>,
    /// Whether the sink was told to hold.
    pub paused: bool,
    /// Whether the sink ran out of audio, as last observed.
    pub sink_empty: bool,
    /// Playback position in the current track, as last observed.
    pub position_ms: u64,
    /// Orders not yet carried out by the sink's runner.
    pub pending: Vec<SinkCommand>,
}

/// How starting playback changes the player, history aside: the next
/// track, if any, leaves the queue and is handed to the sink after a
/// clear, and the sink is set playing.
pub open spec fn play_rel(o: AudioPlayer, n: AudioPlayer) -> bool {
    &&& n.paused == false
    &&& n.position_ms == 0
    &&& if o.queue@.len() > 0 {
        &&& n.current == Some(o.queue@.last())
        &&& n.queue@ == o.queue@.drop_last()
        &&& n.pending@ == o.pending@ + seq![
            SinkCommand::Clear,
            SinkCommand::Append(o.queue@.last()),
            SinkCommand::Play,
        ]
        &&& n.sink_empty == false
    } else {
        &&& n.current is None
        &&& n.queue@ == o.queue@
        &&& n.pending@ == o.pending@ + seq![SinkCommand::Clear, SinkCommand::Play]
        &&& n.sink_empty == true
    }
}

/// Whether a tick starts playback: the player is not paused and either
/// nothing was ever started or the sink drained with more tracks waiting.
pub open spec fn tick_plays(p: AudioPlayer) -> bool {
    !p.paused && (p.current is None || (p.sink_empty && p.queue@.len() > 0))
}

impl AudioPlayer {
    /// A silent player with nothing queued.
    pub fn new() -> (r: AudioPlayer)
        ensures
            r.current is None,
            r.queue@.len() == 0,
            r.history@.len() == 0,
            r.paused == false,
            r.sink_empty == true,
            r.position_ms == 0,
            r.pending@.len() == 0,
    {
        AudioPlayer {
            current: None,
            queue: Vec::new(),
            history: Vec::new(),
            paused: false,
            sink_empty: true,
            position_ms: 0,
            pending: Vec::new(),
        }
    }

    /// Put one track at the head of the queue: it plays next.
    pub fn push_track(&mut self, track: Track)
        ensures
            final(self).queue@ == old(self).queue@.push(track),
            final(self).current == old(self).current,
            final(self).history@ == old(self).history@,
            final(self).paused == old(self).paused,
            final(self).sink_empty == old(self).sink_empty,
            final(self).position_ms == old(self).position_ms,
            final(self).pending@ == old(self).pending@,
    {
        self.queue.push(track);
    }

    /// Queue a whole playlist so that its first track plays first.
    pub fn queue_playlist(&mut self, tracks: Vec<Track>)
        ensures
            final(self).queue@ == old(self).queue@ + tracks@.reverse(),
            final(self).current == old(self).current,
            final(self).history@ == old(self).history@,
            final(self).paused == old(self).paused,
            final(self).sink_empty == old(self).sink_empty,
            final(self).position_ms == old(self).position_ms,
            final(self).pending@ == old(self).pending@,
    {
        let ghost orig = tracks@;
        let ghost start = self.queue@;
        let mut rem = tracks;
        while rem.len() > 0
            invariant
                rem@.len() <= orig.len(),
                forall|j: int| 0 <= j < rem@.len() ==> rem@[j] == orig[j],
                self.queue@.len() == start.len() + orig.len() - rem@.len(),
                forall|j: int| 0 <= j < start.len() ==> self.queue@[j] == start[j],
                forall|j: int|
                    0 <= j < orig.len() - rem@.len() ==> #[trigger] self.queue@[start.len() as int
                        + j] == orig[orig.len() - 1 - j],
                self.current == old(self).current,
                self.history@ == old(self).history@,
                self.paused == old(self).paused,
                self.sink_empty == old(self).sink_empty,
                self.position_ms == old(self).position_ms,
                self.pending@ == old(self).pending@,
            decreases rem@.len(),
        {
            let t = rem.pop().unwrap();
            self.push_track(t);
        }
        proof {
            assert forall|i: int| 0 <= i < self.queue@.len() implies self.queue@[i] == (start
                + orig.reverse())[i] by {
                if i >= start.len() {
                    let j = i - start.len() as int;
                    assert(self.queue@[start.len() as int + j] == orig[orig.len() - 1 - j]);
                }
            }
            assert(self.queue@ =~= start + orig.reverse());
        }
    }

    /// Whether a track is waiting in the queue.
    fn has_next(&self) -> (r: bool)
        ensures
            r == (self.queue@.len() > 0),
    {
        !self.queue.is_empty()
    }

    /// Hand the next queued track, if any, to the sink.
    fn next(&mut self)
        ensures
            final(self).paused == old(self).paused,
            final(self).history@ == old(self).history@,
            final(self).position_ms == 0,
            old(self).queue@.len() > 0 ==> final(self).current == Some(old(self).queue@.last())
                && final(self).queue@ == old(self).queue@.drop_last() && final(self).sink_empty
                == false && final(self).pending@ == old(self).pending@ + seq![
                SinkCommand::Clear,
                SinkCommand::Append(old(self).queue@.last()),
            ],
            old(self).queue@.len() == 0 ==> final(self).current is None && final(self).queue@
                == old(self).queue@ && final(self).sink_empty == true && final(self).pending@
                == old(self).pending@ + seq![SinkCommand::Clear],
    {
        self.current = self.queue.pop();
        self.pending.push(SinkCommand::Clear);
        self.position_ms = 0;
        match &self.current {
            Some(track) => {
                let audio = track.clone();
                self.pending.push(SinkCommand::Append(audio));
                self.sink_empty = false;
            },
            None => {
                self.sink_empty = true;
            },
        }
    }

    /// Start playing the next queued track.
    pub fn play(&mut self)
        ensures
            play_rel(*old(self), *final(self)),
            final(self).history@ == old(self).history@,
    {
        self.next();
        self.resume();
        proof {
            if old(self).queue@.len() > 0 {
                assert(self.pending@ =~= old(self).pending@ + seq![
                    SinkCommand::Clear,
                    SinkCommand::Append(old(self).queue@.last()),
                    SinkCommand::Play,
                ]);
            } else {
                assert(self.pending@ =~= old(self).pending@ + seq![
                    SinkCommand::Clear,
                    SinkCommand::Play,
                ]);
            }
        }
    }

    /// Let the sink play.
    pub fn resume(&mut self)
        ensures
            final(self).paused == false,
            final(self).pending@ == old(self).pending@.push(SinkCommand::Play),
            final(self).current == old(self).current,
            final(self).queue@ == old(self).queue@,
            final(self).history@ == old(self).history@,
            final(self).sink_empty == old(self).sink_empty,
            final(self).position_ms == old(self).position_ms,
    {
        self.paused = false;
        self.pending.push(SinkCommand::Play);
    }

    /// Hold the sink.
    pub fn pause(&mut self)
        ensures
            final(self).paused == true,
            final(self).pending@ == old(self).pending@.push(SinkCommand::Pause),
            final(self).current == old(self).current,
            final(self).queue@ == old(self).queue@,
            final(self).history@ == old(self).history@,
            final(self).sink_empty == old(self).sink_empty,
            final(self).position_ms == old(self).position_ms,
    {
        self.paused = true;
        self.pending.push(SinkCommand::Pause);
    }

    /// Stop the sink and drop its sources.
    pub fn stop(&mut self)
        ensures
            final(self).sink_empty == true,
            final(self).pending@ == old(self).pending@.push(SinkCommand::Stop),
            final(self).current == old(self).current,
            final(self).queue@ == old(self).queue@,
            final(self).history@ == old(self).history@,
            final(self).paused == old(self).paused,
            final(self).position_ms == old(self).position_ms,
    {
        self.pending.push(SinkCommand::Stop);
        self.sink_empty = true;
    }

    /// Skip the source the sink is on.
    pub fn skip(&mut self)
        ensures
            final(self).sink_empty == true,
            final(self).pending@ == old(self).pending@.push(SinkCommand::SkipOne),
            final(self).current == old(self).current,
            final(self).queue@ == old(self).queue@,
            final(self).history@ == old(self).history@,
            final(self).paused == old(self).paused,
            final(self).position_ms == old(self).position_ms,
    {
        self.pending.push(SinkCommand::SkipOne);
        self.sink_empty = true;
    }

    /// Advance playback once per clock tick: start the first track, or
    /// move to the next one when the sink drained, remembering what just
    /// finished.
    pub fn tick(&mut self)
        ensures
            !tick_plays(*old(self)) ==> *final(self) == *old(self),
            tick_plays(*old(self)) ==> play_rel(*old(self), *final(self)),
            tick_plays(*old(self)) && old(self).current is None ==> final(self).history@ == old(
                self,
            ).history@,
            old(self).current matches Some(cur) ==> (tick_plays(*old(self))
                ==> final(self).history@ == old(self).history@.push(cur)),
    {
        if !self.paused {
            match &self.current {
                Some(cur) => {
                    if self.sink_empty && !self.queue.is_empty() {
                        let finished = cur.clone();
                        self.history.push(finished);
                        self.play();
                    }
                },
                None => {
                    self.play();
                },
            }
        }
    }

    /// Whether the sink ran out of audio, as last observed.
    pub fn empty(&self) -> (r: bool)
        ensures
            r == self.sink_empty,
    {
        self.sink_empty
    }

    /// Whether the sink was told to hold.
    pub fn is_paused(&self) -> (r: bool)
        ensures
            r == self.paused,
    {
        self.paused
    }

    /// The track whose audio the sink holds, if any.
    pub fn get_current(&self) -> (r: Option<&Track>)
        ensures
            r is Some <==> self.current is Some,
            r matches Some(t) ==> *t == self.current->0,
    {
        self.current.as_ref()
    }

    /// Record what the sink's runner sees: whether the sink drained and
    /// how far into the current track it is.
    pub fn observe_sink(&mut self, sink_empty: bool, position_ms: u64)
        ensures
            final(self).sink_empty == sink_empty,
            final(self).position_ms == position_ms,
            final(self).current == old(self).current,
            final(self).queue@ == old(self).queue@,
            final(self).history@ == old(self).history@,
            final(self).paused == old(self).paused,
            final(self).pending@ == old(self).pending@,
    {
        self.sink_empty = sink_empty;
        self.position_ms = position_ms;
    }

    /// Hand the not-yet-executed sink commands to the runner.
    pub fn take_commands(&mut self) -> (r: Vec<SinkCommand>)
        ensures
            r@ == old(self).pending@,
            final(self).pending@.len() == 0,
            final(self).current == old(self).current,
            final(self).queue@ == old(self).queue@,
            final(self).history@ == old(self).history@,
            final(self).paused == old(self).paused,
            final(self).sink_empty == old(self).sink_empty,
            final(self).position_ms == old(self).position_ms,
    {
        let mut out: Vec<SinkCommand> = Vec::new();
        core::mem::swap(&mut self.pending, &mut out);
        out
    }

    /// Elapsed milliseconds in the current track and its total length;
    /// the total is zero while nothing plays.
    pub fn get_progress(&self) -> (r: (u64, u64))
        ensures
            r.0 == self.position_ms,
            self.current matches Some(cur) ==> r.1 == cur.total_duration_ms,
            self.current is None ==> r.1 == 0,
    {
        let total = match &self.current {
            Some(cur) => cur.total_duration_ms,
            None => 0,
        };
        (self.position_ms, total)
    }

    /// The progress line under the track display: elapsed and total time
    /// as clock labels, or `NAN` for the total while nothing plays.
    pub fn get_progress_label(&self) -> (r: String)
        ensures
            self.current matches Some(cur) ==> r@ == hhmmss_of(self.position_ms / 1000) + "|"@
                + hhmmss_of(cur.total_duration_ms / 1000),
            self.current is None ==> r@ == hhmmss_of(self.position_ms / 1000) + "|"@ + "NAN"@,
    {
        let elapsed = hhmmss_label(self.position_ms / 1000);
        let total = match &self.current {
            Some(cur) => hhmmss_label(cur.total_duration_ms / 1000),
            None => String::from_str("NAN"),
        };
        elapsed.concat("|").concat(total.as_str())
    }
}

} // verus!
