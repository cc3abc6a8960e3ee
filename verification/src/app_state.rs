use vstd::prelude::*;

use crate::config::ConfTheme;
use crate::input::InputEffect;
use crate::input::InputGlobal;
use crate::input::InputGlobalEffect;
use crate::input::InputLocal;
use crate::library::StateLibrary;
use crate::library_entry::TrackFile;
use crate::listable::Listable;
use crate::playback::PlaybackActions;
use crate::playback_clock::GlobalPlayback;
use crate::playback_clock::GlobalPlaybackSnapshot;
use crate::playback_clock::spec_elapsed;
use crate::playback_clock::spec_state;
use crate::playlist::StatePlaylist;
use crate::render_data::RenderDataCommon;
use crate::render_data::RenderDataView;
use crate::render_data::RenderDataViewLibrary;
use crate::time_span::TimeSpan;
use crate::ui_state::GlobalUiStateSnapshot;

verus! {

/// Transient presentation state owned by the state thread.
#[derive(Clone, Copy, Debug, PartialEq, Eq, Structural)]
pub struct StateInterface {
    pub width: u16,
    pub height: u16,
    pub current_view: CurrentView,
}

#[derive(Clone, Copy, Debug, PartialEq, Eq, Structural)]
pub enum CurrentView {
    Library,
}

impl StateInterface {
    pub fn init() -> (r: StateInterface)
        ensures
            r.width == 0,
            r.height == 0,
            r.current_view == CurrentView::Library,
    {
        StateInterface { width: 0, height: 0, current_view: CurrentView::Library }
    }
}

/// Messages the state engine takes, already timestamped by their senders.
#[derive(Clone, Debug)]
pub enum StateActions {
    InputLocal(InputLocal),
    InputGlobal(InputGlobal),
    PlaybackNextTrack { failed: bool },
    ScanAddSong { track: TrackFile },
    Resize { width: u16, height: u16 },
    Update,
    Render,
}

/// What the frame debouncer decides after a state change.
#[derive(Clone, Copy, Debug, PartialEq, Eq, Structural)]
pub enum RenderDecision {
    RenderNow,
    ScheduleDelay,
    Skip,
}

/// A frame goes out at once only when none is pending and the last one is
/// at least ten milliseconds old; a younger last frame schedules a
/// deferred render instead, and a pending one coalesces the request away.
pub fn decide_render(render_queued: bool, millis_since_last: u64) -> (r: RenderDecision)
    ensures
        (r is RenderNow) <==> (!render_queued && millis_since_last >= 10),
        (r is ScheduleDelay) <==> (!render_queued && millis_since_last < 10),
        (r is Skip) <==> render_queued,
{
    if render_queued {
        RenderDecision::Skip
    } else if millis_since_last >= 10 {
        RenderDecision::RenderNow
    } else {
        RenderDecision::ScheduleDelay
    }
}

/// How long the render-delay thread sleeps: the rest of the frame period,
/// nothing when the last frame is already old enough.
pub fn render_delay_nanos(frame_period_nanos: u64, since_last_nanos: u64) -> (r: u64)
    ensures
        r == if frame_period_nanos >= since_last_nanos {
            frame_period_nanos - since_last_nanos
        } else {
            0
        },
{
    if frame_period_nanos >= since_last_nanos {
        frame_period_nanos - since_last_nanos
    } else {
        0
    }
}

/// The authoritative application state: the single writer of library,
/// interface and playlist.
#[derive(Clone, Debug)]
pub struct AppState {
    pub interface: StateInterface,
    pub library: StateLibrary,
    pub playlist: StatePlaylist,
    pub has_changed: bool,
}

/// The playback commands that switch the player onto the playlist's
/// current track: clear the engine, play the current track from its
/// start, and queue the follower.
pub open spec fn spec_switch_commands(p: StatePlaylist) -> Seq<PlaybackActions> {
    let base = seq![PlaybackActions::Clear];
    let with_play = if (p.selected as int) < p.list@.len() {
        base.push(
            PlaybackActions::Play {
                track: p.list@[p.selected as int],
                start_at: Option::<TimeSpan>::None,
            },
        )
    } else {
        base
    };
    if p.selected + 1 < p.list@.len() {
        with_play.push(PlaybackActions::Que { track: p.list@[p.selected + 1] })
    } else {
        with_play
    }
}

impl AppState {
    pub open spec fn wf(self) -> bool {
        self.library.wf()
    }

    pub fn init() -> (r: AppState)
        ensures
            r.wf(),
            r.has_changed,
            r.playlist.list@.len() == 0,
            r.library.tracks@.len() == 0,
    {
        AppState {
            interface: StateInterface::init(),
            library: StateLibrary::init(),
            playlist: StatePlaylist::init(),
            has_changed: true,
        }
    }

    /// Send the commands that put playback onto the playlist's current
    /// track.
    fn push_switch_commands(&self, commands: &mut Vec<PlaybackActions>)
        requires
            old(commands)@.len() == 0,
        ensures
            final(commands)@ == spec_switch_commands(self.playlist),
    {
        commands.push(PlaybackActions::Clear);
        match self.playlist.get_current_track() {
            Option::Some(track) => {
                commands.push(PlaybackActions::Play { track, start_at: Option::None });
            },
            Option::None => {},
        }
        match self.playlist.get_next_track() {
            Option::Some(track) => {
                commands.push(PlaybackActions::Que { track });
            },
            Option::None => {},
        }
        proof {
            assert(commands@ =~= spec_switch_commands(self.playlist));
        }
    }

    /// Apply one action against the shared clock as read at `now`, and
    /// say which commands the playback engine must receive for it.
    #[verifier::rlimit(60)]
    pub fn handle_action(
        &mut self,
        clock: &GlobalPlayback,
        now: TimeSpan,
        action: StateActions,
    ) -> (commands: Vec<PlaybackActions>)
        requires
            old(self).wf(),
            clock.wf(),
            now.wf(),
            clock.elapsed_acc.secs + now.secs + 65537 < u64::MAX,
            old(self).playlist.selected < usize::MAX,
            old(self).playlist.list@.len() < usize::MAX,
            old(self).playlist.list@.len() + old(self).library.list_tracks.entries@.len()
                < usize::MAX,
            old(self).library.filters_artist@.len() < usize::MAX,
            old(self).library.filters_years@.len() < usize::MAX,
            old(self).library.list_filter.entries@.len() < usize::MAX,
            old(self).library.list_tracks.entries@.len() + 1 < usize::MAX,
            old(self).library.tracks@.len() < usize::MAX,
            match action {
                StateActions::ScanAddSong { track } => !track.is_album_padding,
                _ => true,
            },
        ensures
            final(self).wf(),
            match action {
                StateActions::InputGlobal(g) => {
                    &&& final(self).library == old(self).library
                    &&& match g {
                        InputGlobal::PlayPause => {
                            &&& final(self).playlist == old(self).playlist
                            &&& if spec_state(*clock) is Playing {
                                commands@ == seq![PlaybackActions::Pause]
                            } else if spec_state(*clock) is Paused {
                                commands@.len() == 1 && match commands@[0] {
                                    PlaybackActions::Resume(t) => t.wf() && t.total()
                                        == spec_elapsed(*clock, now),
                                    _ => false,
                                }
                            } else {
                                commands@.len() == 0
                            }
                        },
                        InputGlobal::Previous => {
                            if spec_elapsed(*clock, now) > 5000000000 {
                                &&& final(self).playlist == old(self).playlist
                                &&& commands@ == seq![PlaybackActions::Replay]
                            } else {
                                &&& final(self).playlist.list@ == old(self).playlist.list@
                                &&& final(self).playlist.selected as int == (if old(
                                    self,
                                ).playlist.selected == 0 {
                                    0int
                                } else {
                                    old(self).playlist.selected - 1
                                })
                                &&& commands@ == spec_switch_commands(final(self).playlist)
                            }
                        },
                        InputGlobal::Next => {
                            &&& final(self).playlist == old(self).playlist
                            &&& commands@ == seq![PlaybackActions::Next]
                        },
                        InputGlobal::Stop => {
                            &&& final(self).playlist.list@.len() == 0
                            &&& commands@ == seq![PlaybackActions::Clear]
                        },
                        InputGlobal::SkipBackward { sec } => {
                            &&& final(self).playlist == old(self).playlist
                            &&& if spec_elapsed(*clock, now) < sec * 1000000000 {
                                commands@ == seq![PlaybackActions::Replay]
                            } else {
                                commands@.len() == 1 && match commands@[0] {
                                    PlaybackActions::Resume(t) => t.wf() && t.total()
                                        == spec_elapsed(*clock, now) - sec * 1000000000,
                                    _ => false,
                                }
                            }
                        },
                        InputGlobal::SkipForward { sec } => {
                            &&& final(self).playlist == old(self).playlist
                            &&& commands@.len() == 1
                            &&& match commands@[0] {
                                PlaybackActions::Resume(t) => t.wf() && t.total() == spec_elapsed(
                                    *clock,
                                    now,
                                ) + sec * 1000000000,
                                _ => false,
                            }
                        },
                    }
                },
                StateActions::PlaybackNextTrack { .. } => {
                    &&& final(self).library == old(self).library
                    &&& final(self).playlist.list@ == old(self).playlist.list@
                    &&& final(self).playlist.selected == old(self).playlist.selected + 1
                    &&& commands@ == (if old(self).playlist.selected + 2 < old(
                        self,
                    ).playlist.list@.len() {
                        seq![
                            PlaybackActions::Que {
                                track: old(self).playlist.list@[old(self).playlist.selected + 2],
                            },
                        ]
                    } else {
                        Seq::<PlaybackActions>::empty()
                    })
                },
                StateActions::ScanAddSong { .. } => {
                    &&& final(self).playlist == old(self).playlist
                    &&& commands@.len() == 0
                },
                StateActions::Resize { width, height } => {
                    &&& final(self).interface.width == width
                    &&& final(self).interface.height == height
                    &&& final(self).library == old(self).library
                    &&& final(self).playlist == old(self).playlist
                    &&& commands@.len() == 0
                },
                StateActions::Update | StateActions::Render => {
                    &&& *final(self) == (AppState { has_changed: true, ..*old(self) })
                    &&& commands@.len() == 0
                },
                StateActions::InputLocal(input) => {
                    // how each input moves the library is pinned down on
                    // StateLibrary::handle_input and handle_input_effect,
                    // which this dispatches to; what a selection does to the
                    // playlist and the playback engine is stated here
                    &&& final(self).library.tracks@ == old(self).library.tracks@
                    &&& final(self).library.filters_artist@ == old(self).library.filters_artist@
                    &&& final(self).library.filters_years@ == old(self).library.filters_years@
                    &&& ({
                        let lib = old(self).library;
                        let in_tracks = lib.selected_column is Tracks;
                        let cursor_valid = (lib.list_tracks.selected as int)
                            < lib.list_tracks.entries@.len();
                        match input {
                            InputLocal::Select => {
                                if in_tracks && cursor_valid {
                                    ({
                                        let anchor = lib.list_tracks.entries@[lib.list_tracks.selected as int];
                                        let sel = crate::library::spec_selected_tracks(
                                            lib.list_tracks.entries@,
                                            anchor,
                                            lib.select_mode,
                                        );
                                        let at = crate::playlist::first_with_id(
                                            sel,
                                            anchor.id_track,
                                        );
                                        &&& final(self).playlist.list@ == sel
                                        &&& final(self).playlist.selected as int == (if at
                                            < sel.len() {
                                            at
                                        } else {
                                            0
                                        })
                                        &&& commands@ == spec_switch_commands(
                                            final(self).playlist,
                                        )
                                    })
                                } else {
                                    &&& final(self).playlist.list@ == old(self).playlist.list@
                                    &&& final(self).playlist.selected == old(
                                        self,
                                    ).playlist.selected
                                    &&& commands@.len() == 0
                                }
                            },
                            InputLocal::SelectAlt => {
                                if in_tracks && cursor_valid {
                                    ({
                                        let anchor = lib.list_tracks.entries@[lib.list_tracks.selected as int];
                                        let sel = crate::library::spec_selected_tracks(
                                            lib.list_tracks.entries@,
                                            anchor,
                                            lib.select_mode,
                                        );
                                        &&& final(self).playlist.list@ == old(
                                            self,
                                        ).playlist.list@ + sel
                                        &&& final(self).playlist.selected == old(
                                            self,
                                        ).playlist.selected
                                        &&& commands@.len() == 0
                                    })
                                } else {
                                    &&& final(self).playlist.list@ == old(self).playlist.list@
                                    &&& final(self).playlist.selected == old(
                                        self,
                                    ).playlist.selected
                                    &&& commands@.len() == 0
                                }
                            },
                            _ => {
                                &&& final(self).playlist.list@ == old(self).playlist.list@
                                &&& final(self).playlist.selected == old(self).playlist.selected
                                &&& commands@.len() == 0
                            },
                        }
                    })
                },
            },
    {
        let mut commands: Vec<PlaybackActions> = Vec::new();
        match action {
            StateActions::InputLocal(input) => {
                let effect = self.library.handle_input(input);
                match effect {
                    InputEffect::Local(local) => self.library.handle_input_effect(local),
                    InputEffect::Global(InputGlobalEffect::AppendTracks(tracks)) => {
                        proof {
                            crate::library::lemma_selected_tracks_len(
                                old(self).library.list_tracks.entries@,
                                0,
                            );
                        }
                        self.append_all(tracks);
                    },
                    InputEffect::Global(
                        InputGlobalEffect::ReplaceTracksAndPlay { tracks, index },
                    ) => {
                        proof {
                            crate::library::lemma_selected_tracks_len(
                                old(self).library.list_tracks.entries@,
                                0,
                            );
                        }
                        self.playlist.replace(tracks, index);
                        self.push_switch_commands(&mut commands);
                    },
                    InputEffect::Ignored => {},
                }
            },
            StateActions::InputGlobal(input) => {
                let elapsed = clock.elapsed(now);
                match input {
                    InputGlobal::PlayPause => {
                        match clock.get_state() {
                            crate::playback_clock::PlaybackState::Playing => {
                                commands.push(PlaybackActions::Pause);
                                proof {
                                    assert(commands@ =~= seq![PlaybackActions::Pause]);
                                }
                            },
                            crate::playback_clock::PlaybackState::Paused => {
                                commands.push(PlaybackActions::Resume(elapsed));
                                proof {
                                    assert(commands@ =~= seq![PlaybackActions::Resume(elapsed)]);
                                }
                            },
                            _ => {},
                        }
                    },
                    InputGlobal::Previous => {
                        let five = TimeSpan::from_secs(5);
                        if five.lt(&elapsed) {
                            commands.push(PlaybackActions::Replay);
                            proof {
                                assert(commands@ =~= seq![PlaybackActions::Replay]);
                            }
                        } else {
                            self.playlist.previous();
                            self.push_switch_commands(&mut commands);
                        }
                    },
                    InputGlobal::Next => {
                        commands.push(PlaybackActions::Next);
                        proof {
                            assert(commands@ =~= seq![PlaybackActions::Next]);
                        }
                    },
                    InputGlobal::Stop => {
                        self.playlist.clear();
                        commands.push(PlaybackActions::Clear);
                        proof {
                            assert(commands@ =~= seq![PlaybackActions::Clear]);
                        }
                    },
                    InputGlobal::SkipBackward { sec } => {
                        let dur = TimeSpan::from_secs(sec as u64);
                        if elapsed.lt(&dur) {
                            commands.push(PlaybackActions::Replay);
                            proof {
                                assert(commands@ =~= seq![PlaybackActions::Replay]);
                            }
                        } else {
                            let target = elapsed.saturating_sub(dur);
                            commands.push(PlaybackActions::Resume(target));
                            proof {
                                assert(commands@ =~= seq![PlaybackActions::Resume(target)]);
                            }
                        }
                    },
                    InputGlobal::SkipForward { sec } => {
                        let dur = TimeSpan::from_secs(sec as u64);
                        let target = elapsed.add_span(dur);
                        commands.push(PlaybackActions::Resume(target));
                        proof {
                            assert(commands@ =~= seq![PlaybackActions::Resume(target)]);
                        }
                    },
                }
            },
            StateActions::PlaybackNextTrack { .. } => {
                self.playlist.next();
                match self.playlist.get_next_track() {
                    Option::Some(track) => {
                        commands.push(PlaybackActions::Que { track });
                        proof {
                            assert(commands@ =~= seq![
                                PlaybackActions::Que {
                                    track: old(self).playlist.list@[old(self).playlist.selected
                                        + 2],
                                },
                            ]);
                        }
                    },
                    Option::None => {},
                }
            },
            StateActions::ScanAddSong { track } => {
                self.library.new_track(track);
            },
            StateActions::Resize { width, height } => {
                self.interface.width = width;
                self.interface.height = height;
            },
            StateActions::Update => {},
            StateActions::Render => {},
        }
        self.has_changed = true;
        commands
    }

    fn append_all(&mut self, tracks: Vec<TrackFile>)
        requires
            old(self).wf(),
            old(self).playlist.list@.len() + tracks@.len() < usize::MAX,
        ensures
            final(self).wf(),
            final(self).library == old(self).library,
            final(self).interface == old(self).interface,
            final(self).playlist.list@ == old(self).playlist.list@ + tracks@,
            final(self).playlist.selected == old(self).playlist.selected,
    {
        let ghost base = self.playlist.list@;
        let mut i: usize = 0;
        while i < tracks.len()
            invariant
                0 <= i <= tracks@.len(),
                base.len() + tracks@.len() < usize::MAX,
                self.playlist.list@ == base + tracks@.take(i as int),
                self.playlist.selected == old(self).playlist.selected,
                self.library == old(self).library,
                self.interface == old(self).interface,
                self.has_changed == old(self).has_changed,
                old(self).wf(),
            decreases tracks@.len() - i,
        {
            let t = tracks[i].duplicate();
            self.playlist.append(t);
            proof {
                assert(self.playlist.list@ =~= base + tracks@.take(i + 1));
            }
            i = i + 1;
        }
        proof {
            assert(self.playlist.list@ =~= base + tracks@);
        }
    }

    /// Build the render payload: the common snapshot block and the visible
    /// windows of the two library columns.
    pub fn render_state(
        &mut self,
        term: GlobalUiStateSnapshot,
        playback: GlobalPlaybackSnapshot,
        theme: ConfTheme,
    ) -> (r: (RenderDataCommon, RenderDataView))
        requires
            old(self).wf(),
            old(self).library.list_filter.entries@.len() + 65540 < usize::MAX,
            old(self).library.list_tracks.entries@.len() + 65540 < usize::MAX,
        ensures
            final(self).wf(),
            final(self).library.tracks@ == old(self).library.tracks@,
            final(self).library.list_filter.entries@ == old(self).library.list_filter.entries@,
            final(self).library.list_tracks.entries@ == old(self).library.list_tracks.entries@,
            final(self).playlist == old(self).playlist,
            !final(self).has_changed,
            r.0.term == term,
            r.0.playback == playback,
            r.0.playlist.list@ == old(self).playlist.list@,
            r.0.playlist.selected == old(self).playlist.selected,
            r.0.theme == theme,
            match r.1 {
                RenderDataView::Library(v) => {
                    &&& v.column_selected == old(self).library.selected_column
                    &&& v.tab_selected == old(self).library.selected_tab
                    &&& v.track_select_mode == old(self).library.select_mode
                    &&& v.list_height == (if term.height >= 2 {
                        term.height - 2
                    } else {
                        0
                    })
                    &&& v.left@ == ({
                        let l = old(self).library.list_filter;
                        let a = crate::sorted_list::spec_new_anchor(
                            l.selected as int,
                            l.scroll_anchor as int,
                            l.entries@.len() as int,
                            v.list_height as int,
                        );
                        let hi = if a + v.list_height < l.entries@.len() {
                            a + v.list_height
                        } else {
                            l.entries@.len() as int
                        };
                        l.entries@.subrange(a, hi)
                    })
                    &&& v.right@ == ({
                        let l = old(self).library.list_tracks;
                        let a = crate::sorted_list::spec_new_anchor(
                            l.selected as int,
                            l.scroll_anchor as int,
                            l.entries@.len() as int,
                            v.list_height as int,
                        );
                        let hi = if a + v.list_height < l.entries@.len() {
                            a + v.list_height
                        } else {
                            l.entries@.len() as int
                        };
                        l.entries@.subrange(a, hi)
                    })
                },
            },
    {
        let list_height: usize = if term.height >= 2 {
            (term.height - 2) as usize
        } else {
            0
        };
        let (left, left_selected) = self.library.list_filter.view(list_height);
        let (right, right_selected) = self.library.list_tracks.view(list_height);
        self.has_changed = false;
        let common = RenderDataCommon {
            term,
            playback,
            playlist: self.duplicate_playlist(),
            theme,
        };
        let view = RenderDataView::Library(
            RenderDataViewLibrary {
                column_selected: self.library.selected_column,
                tab_selected: self.library.selected_tab,
                track_select_mode: self.library.select_mode,
                list_height,
                left,
                left_selected,
                right,
                right_selected,
            },
        );
        (common, view)
    }

    fn duplicate_playlist(&self) -> (r: StatePlaylist)
        ensures
            r.list@ == self.playlist.list@,
            r.selected == self.playlist.selected,
    {
        let list = crate::sorted_list::duplicate_entries(&self.playlist.list);
        proof {
            assert(list@ =~= self.playlist.list@);
        }
        StatePlaylist { list, selected: self.playlist.selected }
    }
}

} // verus!
