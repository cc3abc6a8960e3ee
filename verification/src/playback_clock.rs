use vstd::prelude::*;

use crate::time_span::TimeSpan;

verus! {

/// The playback states the shared clock can report.
#[derive(Clone, Copy, Debug, PartialEq, Eq, Structural)]
pub enum PlaybackState {
    Stopped,
    Loading,
    Paused,
    Playing,
}

/// The shared playback clock: playback-state telemetry written by the
/// playback engine and read by every renderer. In the running program each
/// field lives in one atomic; this model is the single-writer view of them.
#[derive(Clone, Copy, Debug, PartialEq, Eq, Structural)]
pub struct GlobalPlayback {
    pub is_loading: bool,
    pub playing_id: u64,
    pub loading_id: u64,
    /// 0 stopped, 1 loading, 2 paused, 3 playing
    pub state_code: u8,
    /// wall clock at which the current playing segment began
    pub since: TimeSpan,
    /// elapsed time accumulated in earlier segments of the current track
    pub elapsed_acc: TimeSpan,
    pub length: TimeSpan,
}

/// A point-in-time copy of the clock, as one render works from it.
#[derive(Clone, Copy, Debug, PartialEq, Eq, Structural)]
pub struct GlobalPlaybackSnapshot {
    pub playing: Option<u64>,
    pub loading: Option<u64>,
    pub since: TimeSpan,
    pub elapsed: TimeSpan,
    pub state: PlaybackState,
    pub duration: TimeSpan,
}

/// The one state the clock reports: the loading flag overrides a stopped
/// code, every other code maps to its own state.
pub open spec fn spec_state(c: GlobalPlayback) -> PlaybackState {
    if c.state_code == 0 && !c.is_loading {
        PlaybackState::Stopped
    } else if c.state_code == 0 || c.state_code == 1 {
        PlaybackState::Loading
    } else if c.state_code == 2 {
        PlaybackState::Paused
    } else {
        PlaybackState::Playing
    }
}

/// Elapsed playback time: the accumulator, plus the running segment's age
/// only while playing.
pub open spec fn spec_elapsed(c: GlobalPlayback, now: TimeSpan) -> int {
    c.elapsed_acc.total() + if spec_state(c) is Playing {
        if now.total() >= c.since.total() {
            now.total() - c.since.total()
        } else {
            0
        }
    } else {
        0
    }
}

impl GlobalPlayback {
    pub open spec fn wf(self) -> bool {
        &&& self.state_code <= 3
        &&& self.since.wf()
        &&& self.elapsed_acc.wf()
        &&& self.length.wf()
    }

    pub fn init() -> (r: GlobalPlayback)
        ensures
            r.wf(),
            spec_state(r) is Stopped,
            r.playing_id == 0,
            !r.is_loading,
    {
        GlobalPlayback {
            is_loading: false,
            playing_id: 0,
            loading_id: 0,
            state_code: 0,
            since: TimeSpan::zero(),
            elapsed_acc: TimeSpan::zero(),
            length: TimeSpan::zero(),
        }
    }

    /// Begin a playing segment of `track_id` at offset `elapsed` out of
    /// `length`, with the segment clock started at `now`.
    pub fn start_playback(&mut self, track_id: u64, elapsed: TimeSpan, length: TimeSpan, now: TimeSpan)
        requires
            old(self).wf(),
            elapsed.wf(),
            length.wf(),
            now.wf(),
        ensures
            final(self).wf(),
            spec_state(*final(self)) is Playing,
            final(self).playing_id == track_id,
            final(self).since == now,
            final(self).elapsed_acc == elapsed,
            final(self).length == length,
            final(self).is_loading == old(self).is_loading,
            final(self).loading_id == old(self).loading_id,
    {
        self.since = now;
        self.elapsed_acc = elapsed;
        self.length = length;
        self.state_code = 3;
        self.playing_id = track_id;
    }

    /// Freeze the elapsed clock and mark the playback paused; in any state
    /// but `Playing` this does nothing.
    pub fn pause_playback(&mut self, now: TimeSpan)
        requires
            old(self).wf(),
            now.wf(),
            old(self).elapsed_acc.secs + now.secs + 1 <= u64::MAX,
        ensures
            final(self).wf(),
            if spec_state(*old(self)) is Playing {
                &&& spec_state(*final(self)) is Paused
                &&& final(self).elapsed_acc.total() == spec_elapsed(*old(self), now)
                &&& final(self).since == old(self).since
                &&& final(self).length == old(self).length
                &&& final(self).playing_id == old(self).playing_id
                &&& final(self).is_loading == old(self).is_loading
                &&& final(self).loading_id == old(self).loading_id
            } else {
                *final(self) == *old(self)
            },
            spec_elapsed(*final(self), now) == spec_elapsed(*old(self), now),
    {
        let state = self.get_state();
        if !matches!(state, PlaybackState::Playing) {
            return ;
        }
        let elapsed = self.elapsed(now);
        self.elapsed_acc = elapsed;
        self.state_code = 2;
    }

    /// Restart the segment clock at `now` and mark the playback playing; in
    /// any state but `Paused` this does nothing.
    pub fn resume_playback(&mut self, now: TimeSpan)
        requires
            old(self).wf(),
            now.wf(),
        ensures
            final(self).wf(),
            if spec_state(*old(self)) is Paused {
                &&& spec_state(*final(self)) is Playing
                &&& final(self).since == now
                &&& final(self).elapsed_acc == old(self).elapsed_acc
                &&& final(self).length == old(self).length
                &&& final(self).playing_id == old(self).playing_id
                &&& final(self).is_loading == old(self).is_loading
                &&& final(self).loading_id == old(self).loading_id
                &&& spec_elapsed(*final(self), now) == spec_elapsed(*old(self), now)
            } else {
                *final(self) == *old(self)
            },
    {
        let state = self.get_state();
        if !matches!(state, PlaybackState::Paused) {
            return ;
        }
        self.since = now;
        self.state_code = 3;
    }

    /// Zero the elapsed clock and mark the playback stopped; when already
    /// stopped this does nothing.
    pub fn stop_playback(&mut self)
        requires
            old(self).wf(),
        ensures
            final(self).wf(),
            if spec_state(*old(self)) is Stopped {
                *final(self) == *old(self)
            } else {
                &&& spec_state(*final(self)) is Stopped || spec_state(*final(self)) is Loading
                &&& final(self).state_code == 0
                &&& final(self).elapsed_acc.total() == 0
                &&& final(self).playing_id == old(self).playing_id
                &&& final(self).is_loading == old(self).is_loading
            },
    {
        let state = self.get_state();
        if matches!(state, PlaybackState::Stopped) {
            return ;
        }
        self.elapsed_acc = TimeSpan::zero();
        self.state_code = 0;
    }

    /// Raise or clear the loading flag with the track being loaded.
    pub fn set_loading(&mut self, track_id: Option<u64>)
        requires
            old(self).wf(),
        ensures
            final(self).wf(),
            final(self).is_loading == track_id.is_some(),
            final(self).loading_id == match track_id {
                Option::Some(id) => id,
                Option::None => 0,
            },
            final(self).state_code == old(self).state_code,
            final(self).playing_id == old(self).playing_id,
            final(self).since == old(self).since,
            final(self).elapsed_acc == old(self).elapsed_acc,
            final(self).length == old(self).length,
    {
        match track_id {
            Option::Some(id) => {
                self.is_loading = true;
                self.loading_id = id;
            },
            Option::None => {
                self.is_loading = false;
                self.loading_id = 0;
            },
        }
    }

    pub fn get_state(&self) -> (r: PlaybackState)
        requires
            self.wf(),
        ensures
            r == spec_state(*self),
    {
        if self.state_code == 0 && !self.is_loading {
            PlaybackState::Stopped
        } else if self.state_code == 0 || self.state_code == 1 {
            PlaybackState::Loading
        } else if self.state_code == 2 {
            PlaybackState::Paused
        } else {
            PlaybackState::Playing
        }
    }

    pub fn playing(&self) -> (r: u64)
        ensures
            r == self.playing_id,
    {
        self.playing_id
    }

    pub fn loading(&self) -> (r: Option<u64>)
        ensures
            r == if self.is_loading {
                Option::Some(self.loading_id)
            } else {
                Option::None::<u64>
            },
    {
        if self.is_loading {
            Option::Some(self.loading_id)
        } else {
            Option::None
        }
    }

    pub fn since(&self) -> (r: TimeSpan)
        ensures
            r == self.since,
    {
        self.since
    }

    pub fn duration(&self) -> (r: TimeSpan)
        ensures
            r == self.length,
    {
        self.length
    }

    /// Elapsed playback time at wall clock `now`.
    pub fn elapsed(&self, now: TimeSpan) -> (r: TimeSpan)
        requires
            self.wf(),
            now.wf(),
            self.elapsed_acc.secs + now.secs + 1 <= u64::MAX,
        ensures
            r.wf(),
            r.total() == spec_elapsed(*self, now),
    {
        let state = self.get_state();
        if matches!(state, PlaybackState::Playing) {
            self.elapsed_acc.add_span(now.saturating_sub(self.since))
        } else {
            self.elapsed_acc
        }
    }

    /// One consistent copy of the whole clock; `playing` is absent when
    /// stopped.
    pub fn snapshot(&self, now: TimeSpan) -> (r: GlobalPlaybackSnapshot)
        requires
            self.wf(),
            now.wf(),
            self.elapsed_acc.secs + now.secs + 1 <= u64::MAX,
        ensures
            r.state == spec_state(*self),
            r.playing == if spec_state(*self) is Stopped {
                Option::None::<u64>
            } else {
                Option::Some(self.playing_id)
            },
            r.loading == if self.is_loading {
                Option::Some(self.loading_id)
            } else {
                Option::None::<u64>
            },
            r.since == self.since,
            r.elapsed.wf(),
            r.elapsed.total() == spec_elapsed(*self, now),
            r.duration == self.length,
    {
        let state = self.get_state();
        GlobalPlaybackSnapshot {
            state,
            playing: match state {
                PlaybackState::Stopped => Option::None,
                _ => Option::Some(self.playing_id),
            },
            loading: self.loading(),
            since: self.since,
            elapsed: self.elapsed(now),
            duration: self.length,
        }
    }
}

/// At any sampling point the clock reflects exactly one of the four
/// playback states.
pub proof fn law_exactly_one_state(c: GlobalPlayback)
    ensures
        spec_state(c) is Stopped || spec_state(c) is Loading || spec_state(c) is Paused
            || spec_state(c) is Playing,
        spec_state(c) is Stopped ==> !(spec_state(c) is Loading) && !(spec_state(c) is Paused)
            && !(spec_state(c) is Playing),
{
}

/// While the clock plays, elapsed time never runs backwards.
pub proof fn law_elapsed_monotonic(c: GlobalPlayback, n1: TimeSpan, n2: TimeSpan)
    requires
        n1.total() <= n2.total(),
    ensures
        spec_elapsed(c, n1) <= spec_elapsed(c, n2),
{
}

/// The status icon for a playback state; while loading it is the spinner's
/// current frame.
pub open spec fn spec_state_icon(state: PlaybackState, spinner: char) -> char {
    match state {
        PlaybackState::Stopped => '⏹',
        PlaybackState::Loading => spinner,
        PlaybackState::Paused => '⏸',
        PlaybackState::Playing => '⏵',
    }
}

impl PlaybackState {
    /// The status icon of this state.
    pub fn icon(&self, spinner: char) -> (r: char)
        ensures
            r == spec_state_icon(*self, spinner),
    {
        match self {
            PlaybackState::Stopped => '⏹',
            PlaybackState::Loading => spinner,
            PlaybackState::Paused => '⏸',
            PlaybackState::Playing => '⏵',
        }
    }
}

} // verus!
