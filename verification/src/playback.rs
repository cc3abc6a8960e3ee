use vstd::prelude::*;

use std::collections::BTreeMap;

use crate::library_entry::TrackFile;
use crate::listable::Listable;
use crate::playback_clock::GlobalPlayback;
use crate::playback_clock::spec_state;
use crate::time_span::TimeSpan;

verus! {

broadcast use vstd::std_specs::btree::group_btree_axioms;

/// Messages the playback engine takes.
#[derive(Clone, Debug, PartialEq, Eq)]
pub enum PlaybackActions {
    NewTrack { track_id: u64, path: String },
    Play { track: TrackFile, start_at: Option<TimeSpan> },
    Que { track: TrackFile },
    Replay,
    Pause,
    Resume(TimeSpan),
    Next,
    Callback,
    Clear,
}

/// What the audio backend must do after a `start` decision: play this
/// track's decoded sound, skipped forward when resuming mid-track.
#[derive(Clone, Debug, PartialEq, Eq)]
pub struct StartAction {
    pub track: TrackFile,
    pub skip_to: Option<TimeSpan>,
}

/// The playback engine's own state: the registered track paths, the queue
/// of decoded tracks, and the shared clock as this engine publishes it.
pub struct PlaybackManager {
    pub registered: BTreeMap<u64, String>,
    pub que: Vec<TrackFile>,
    pub clock: GlobalPlayback,
}

impl PlaybackManager {
    pub open spec fn wf(self) -> bool {
        &&& self.clock.wf()
        &&& forall|i: int| 0 <= i < self.que@.len() ==> (#[trigger] self.que@[i]).duration.wf()
    }

    pub fn new() -> (r: PlaybackManager)
        ensures
            r.wf(),
            r.registered@ == Map::<u64, String>::empty(),
            r.que@.len() == 0,
            spec_state(r.clock) is Stopped,
    {
        PlaybackManager {
            registered: BTreeMap::new(),
            que: Vec::new(),
            clock: GlobalPlayback::init(),
        }
    }

    /// Remember where a track's file lives.
    pub fn register_path(&mut self, track_id: u64, path: String)
        requires
            old(self).wf(),
        ensures
            final(self).wf(),
            final(self).registered@ == old(self).registered@.insert(track_id, path),
            final(self).que@ == old(self).que@,
            final(self).clock == old(self).clock,
    {
        self.registered.insert(track_id, path);
    }

    /// The registered file path of a track; a track can only play once its
    /// path arrived.
    pub fn path_for(&self, track_id: u64) -> (r: Option<&String>)
        ensures
            match r {
                Option::Some(p) => self.registered@.contains_key(track_id) && *p
                    == self.registered@[track_id],
                Option::None => !self.registered@.contains_key(track_id),
            },
    {
        self.registered.get(&track_id)
    }

    /// Take a decoded track at the back of the queue.
    pub fn que_loaded(&mut self, track: TrackFile)
        requires
            old(self).wf(),
            track.duration.wf(),
            old(self).que@.len() < usize::MAX,
        ensures
            final(self).wf(),
            final(self).que@ == old(self).que@.push(track),
            final(self).registered@ == old(self).registered@,
            final(self).clock == old(self).clock,
    {
        self.que.push(track);
    }

    /// Drop the queue and stop the shared clock.
    pub fn clear(&mut self)
        requires
            old(self).wf(),
        ensures
            final(self).wf(),
            final(self).que@.len() == 0,
            final(self).registered@ == old(self).registered@,
            final(self).clock.is_loading == old(self).clock.is_loading,
            !old(self).clock.is_loading ==> spec_state(final(self).clock) is Stopped,
            old(self).clock.is_loading ==> spec_state(final(self).clock) is Loading,
    {
        self.que.clear();
        self.clock.stop_playback();
    }

    /// Begin playing the front of the queue at `start_at` (the start when
    /// absent): the clock starts a playing segment for that track, and the
    /// returned action tells the backend what to play. An empty queue
    /// stops playback instead and asks nothing of the backend.
    pub fn start(&mut self, start_at: Option<TimeSpan>, now: TimeSpan) -> (r: Option<StartAction>)
        requires
            old(self).wf(),
            now.wf(),
            match start_at {
                Option::Some(t) => t.wf(),
                Option::None => true,
            },
        ensures
            final(self).wf(),
            final(self).registered@ == old(self).registered@,
            final(self).que@ == old(self).que@,
            final(self).clock.is_loading == old(self).clock.is_loading,
            if old(self).que@.len() == 0 {
                &&& r is None
                &&& !old(self).clock.is_loading ==> spec_state(final(self).clock) is Stopped
                &&& old(self).clock.is_loading ==> spec_state(final(self).clock) is Loading
            } else {
                ({
                    let front = old(self).que@[0];
                    let at = match start_at {
                        Option::Some(t) => t,
                        Option::None => TimeSpan { secs: 0, nanos: 0 },
                    };
                    &&& r == Option::Some(StartAction { track: front, skip_to: start_at })
                    &&& spec_state(final(self).clock) is Playing
                    &&& final(self).clock.playing_id == front.id_track
                    &&& final(self).clock.elapsed_acc == at
                    &&& final(self).clock.since == now
                    &&& final(self).clock.length == front.duration
                })
            },
    {
        if self.que.len() == 0 {
            self.que.clear();
            self.clock.stop_playback();
            return Option::None;
        }
        let front = self.que[0].duplicate();
        let at = match start_at {
            Option::Some(t) => t,
            Option::None => TimeSpan::new(0, 0),
        };
        self.clock.start_playback(front.id_track, at, front.duration, now);
        Option::Some(StartAction { track: front, skip_to: start_at })
    }

    /// Drop the finished front of the queue and start whatever follows.
    pub fn next(&mut self, now: TimeSpan) -> (r: Option<StartAction>)
        requires
            old(self).wf(),
            now.wf(),
        ensures
            final(self).wf(),
            final(self).registered@ == old(self).registered@,
            final(self).que@ == (if old(self).que@.len() == 0 {
                old(self).que@
            } else {
                old(self).que@.drop_first()
            }),
            final(self).clock.is_loading == old(self).clock.is_loading,
            if old(self).que@.len() <= 1 {
                &&& r is None
                &&& !old(self).clock.is_loading ==> spec_state(final(self).clock) is Stopped
                &&& old(self).clock.is_loading ==> spec_state(final(self).clock) is Loading
            } else {
                ({
                    let front = old(self).que@[1];
                    &&& r == Option::Some(
                        StartAction { track: front, skip_to: Option::<TimeSpan>::None },
                    )
                    &&& spec_state(final(self).clock) is Playing
                    &&& final(self).clock.playing_id == front.id_track
                    &&& final(self).clock.elapsed_acc.total() == 0
                    &&& final(self).clock.since == now
                })
            },
    {
        if self.que.len() > 0 {
            self.que.remove(0);
            proof {
                assert(self.que@ =~= old(self).que@.drop_first());
            }
        }
        self.start(Option::None, now)
    }

    /// Freeze the clock; the backend is silenced by the caller dropping it.
    pub fn pause(&mut self, now: TimeSpan)
        requires
            old(self).wf(),
            now.wf(),
            old(self).clock.elapsed_acc.secs + now.secs + 1 <= u64::MAX,
        ensures
            final(self).wf(),
            final(self).registered@ == old(self).registered@,
            final(self).que@ == old(self).que@,
            final(self).clock.is_loading == old(self).clock.is_loading,
            spec_state(old(self).clock) is Playing ==> spec_state(final(self).clock) is Paused,
            crate::playback_clock::spec_elapsed(final(self).clock, now)
                == crate::playback_clock::spec_elapsed(old(self).clock, now),
    {
        self.clock.pause_playback(now);
    }

    /// Start over at the given offset.
    pub fn resume(&mut self, resume_at: TimeSpan, now: TimeSpan) -> (r: Option<StartAction>)
        requires
            old(self).wf(),
            now.wf(),
            resume_at.wf(),
        ensures
            final(self).wf(),
            final(self).registered@ == old(self).registered@,
            final(self).que@ == old(self).que@,
            final(self).clock.is_loading == old(self).clock.is_loading,
            if old(self).que@.len() == 0 {
                r is None
            } else {
                &&& r == Option::Some(
                    StartAction { track: old(self).que@[0], skip_to: Option::Some(resume_at) },
                )
                &&& spec_state(final(self).clock) is Playing
                &&& final(self).clock.elapsed_acc == resume_at
            },
    {
        self.start(Option::Some(resume_at), now)
    }
}

} // verus!
