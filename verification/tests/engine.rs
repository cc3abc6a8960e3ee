use music_player::app_state::AppState;
use music_player::app_state::RenderDecision;
use music_player::app_state::StateActions;
use music_player::app_state::decide_render;
use music_player::config::ConfColor;
use music_player::config::ConfTheme;
use music_player::config::Config;
use music_player::config::expand_home_dir;
use music_player::input::InputGlobal;
use music_player::input::InputLocal;
use music_player::input::Key;
use music_player::input::KeyAction;
use music_player::input::map_key;
use music_player::library::LibraryColumn;
use music_player::library::LibraryTab;
use music_player::library_entry::LibraryFilterEntry;
use music_player::library_entry::TrackFile;
use music_player::playback::PlaybackActions;
use music_player::playback::PlaybackManager;
use music_player::playback_clock::GlobalPlayback;
use music_player::playback_clock::GlobalPlaybackSnapshot;
use music_player::playback_clock::PlaybackState;
use music_player::playlist::StatePlaylist;
use music_player::library::LibrarySelectMode;
use music_player::render_data::RenderDataCommon;
use music_player::render_data::RenderDataViewLibrary;
use music_player::view_library::draw_library_view;
use music_player::style::Color;
use music_player::term_state::TermState;
use music_player::time_span::TimeSpan;
use music_player::ui_state::GlobalUiStateSnapshot;
use music_player::widget_playback::render_playback_status_widget;

fn secs(s: u64) -> TimeSpan {
    TimeSpan { secs: s, nanos: 0 }
}

fn make_track(path: &str, year: u16, artist: &str, album: &str, title: &str, n: u8, dur: u64) -> TrackFile {
    TrackFile::new(
        &path.to_string(),
        secs(dur),
        Some(year),
        Some(artist.to_string()),
        Some(title.to_string()),
        title.to_lowercase(),
        Some(n),
        None,
        Some(album.to_string()),
        None,
    )
}

#[test]
fn test_play_all_scenario() {
    // two tracks arrive from the scan, the user selects, both play in turn
    let t1 = make_track("/m/t1.mp3", 2020, "Ann", "A", "T1", 1, 30);
    let t2 = make_track("/m/t2.mp3", 2020, "Ann", "A", "T2", 2, 40);

    let mut app = AppState::init();
    let clock = GlobalPlayback::init();
    let now = secs(1000);

    let c = app.handle_action(&clock, now, StateActions::ScanAddSong { track: t1.clone() });
    assert!(c.is_empty());
    let c = app.handle_action(&clock, now, StateActions::ScanAddSong { track: t2.clone() });
    assert!(c.is_empty());
    assert_eq!(app.library.tracks.len(), 2);
    // album banner and two tracks in the visible track column
    assert_eq!(app.library.list_tracks.entries.len(), 3);
    assert!(app.library.list_tracks.entries[0].is_album_padding);
    // the cursor rests on a selectable row
    let sel = app.library.list_tracks.selected;
    assert!(!app.library.list_tracks.entries[sel].is_album_padding);

    // move into the track column and select
    app.handle_action(&clock, now, StateActions::InputLocal(InputLocal::Right));
    assert_eq!(app.library.selected_column, LibraryColumn::Tracks);
    let commands = app.handle_action(&clock, now, StateActions::InputLocal(InputLocal::Select));
    assert_eq!(commands.len(), 3);
    assert_eq!(commands[0], PlaybackActions::Clear);
    match &commands[1] {
        PlaybackActions::Play { track, start_at } => {
            assert_eq!(track.id_track, t1.id_track);
            assert!(start_at.is_none());
        },
        other => panic!("unexpected command {:?}", other),
    }
    match &commands[2] {
        PlaybackActions::Que { track } => assert_eq!(track.id_track, t2.id_track),
        other => panic!("unexpected command {:?}", other),
    }

    // the playback engine runs the commands
    let mut pm = PlaybackManager::new();
    pm.register_path(t1.id_track, "/m/t1.mp3".to_string());
    pm.register_path(t2.id_track, "/m/t2.mp3".to_string());
    pm.clear();
    assert!(pm.path_for(t1.id_track).is_some());
    pm.que_loaded(t1.clone());
    let act = pm.start(None, now).expect("a start action");
    assert_eq!(act.track.id_track, t1.id_track);
    assert_eq!(pm.clock.get_state(), PlaybackState::Playing);
    assert_eq!(pm.clock.playing(), t1.id_track);
    assert_eq!(pm.clock.duration(), secs(30));
    assert_eq!(pm.clock.elapsed(now), secs(0));
    pm.que_loaded(t2.clone());

    // the first track ends
    let act = pm.next(secs(1030)).expect("the follower starts");
    assert_eq!(act.track.id_track, t2.id_track);
    assert_eq!(pm.clock.playing(), t2.id_track);
    let c = app.handle_action(&clock, now, StateActions::PlaybackNextTrack { failed: false });
    assert_eq!(app.playlist.selected, 1);
    assert!(c.is_empty());

    // the second track ends: nothing follows and the clock stops
    let act = pm.next(secs(1070));
    assert!(act.is_none());
    assert_eq!(pm.clock.get_state(), PlaybackState::Stopped);
    app.handle_action(&clock, now, StateActions::PlaybackNextTrack { failed: false });
    assert_eq!(app.playlist.selected, 2);
    assert!(app.playlist.get_current_track().is_none());
}

#[test]
fn test_pause_resume_preserves_elapsed() {
    let mut clock = GlobalPlayback::init();
    clock.start_playback(1, secs(0), secs(30), secs(100));
    assert_eq!(clock.elapsed(secs(110)), secs(10));

    clock.pause_playback(secs(110));
    assert_eq!(clock.get_state(), PlaybackState::Paused);
    assert_eq!(clock.elapsed(secs(111)), secs(10));
    assert_eq!(clock.elapsed(secs(200)), secs(10));

    clock.resume_playback(secs(111));
    assert_eq!(clock.get_state(), PlaybackState::Playing);
    assert_eq!(clock.elapsed(secs(116)), secs(15));
}

#[test]
fn test_skip_backward_at_start_replays() {
    let mut clock = GlobalPlayback::init();
    clock.start_playback(1, secs(0), secs(30), secs(1000));
    let mut app = AppState::init();
    let commands = app.handle_action(
        &clock,
        secs(1003),
        StateActions::InputGlobal(InputGlobal::SkipBackward { sec: 10 }),
    );
    assert_eq!(commands, vec![PlaybackActions::Replay]);

    // past the threshold the skip lands mid-track instead
    let commands = app.handle_action(
        &clock,
        secs(1020),
        StateActions::InputGlobal(InputGlobal::SkipBackward { sec: 10 }),
    );
    assert_eq!(commands, vec![PlaybackActions::Resume(secs(10))]);
}

#[test]
fn test_play_pause_commands_follow_clock_state() {
    let mut clock = GlobalPlayback::init();
    let mut app = AppState::init();
    // stopped: nothing to do
    let c = app.handle_action(&clock, secs(10), StateActions::InputGlobal(InputGlobal::PlayPause));
    assert!(c.is_empty());

    clock.start_playback(1, secs(0), secs(30), secs(10));
    let c = app.handle_action(&clock, secs(12), StateActions::InputGlobal(InputGlobal::PlayPause));
    assert_eq!(c, vec![PlaybackActions::Pause]);

    clock.pause_playback(secs(12));
    let c = app.handle_action(&clock, secs(15), StateActions::InputGlobal(InputGlobal::PlayPause));
    assert_eq!(c, vec![PlaybackActions::Resume(secs(2))]);
}

#[test]
fn test_previous_replays_after_five_seconds() {
    let mut clock = GlobalPlayback::init();
    clock.start_playback(1, secs(0), secs(30), secs(100));
    let mut app = AppState::init();
    let c = app.handle_action(&clock, secs(110), StateActions::InputGlobal(InputGlobal::Previous));
    assert_eq!(c, vec![PlaybackActions::Replay]);

    // within the first five seconds the playlist steps back instead
    let c = app.handle_action(&clock, secs(103), StateActions::InputGlobal(InputGlobal::Previous));
    assert_eq!(c, vec![PlaybackActions::Clear]);
}

#[test]
fn test_playlist_boundaries() {
    let mut p = StatePlaylist::init();
    p.previous();
    assert_eq!(p.selected, 0);
    let t = make_track("/m/x.mp3", 2001, "A", "B", "X", 1, 9);
    p.append(t);
    p.next();
    p.next();
    assert_eq!(p.selected, 2);
    assert!(p.get_current_track().is_none());
    assert!(p.get_next_track().is_none());
}

#[test]
fn test_tab_switch_rebuilds_lists() {
    let mut app = AppState::init();
    let clock = GlobalPlayback::init();
    let now = secs(0);
    for (path, year, artist, number) in [
        ("/m/a1.mp3", 2020u16, "Ann", 1u8),
        ("/m/a2.mp3", 2020, "Ann", 2),
        ("/m/b1.mp3", 2021, "Bob", 1),
    ] {
        let t = make_track(path, year, artist, "Al", path, number, 30);
        app.handle_action(&clock, now, StateActions::ScanAddSong { track: t });
    }
    assert_eq!(app.library.selected_tab, LibraryTab::Artists);
    assert_eq!(app.library.list_filter.entries.len(), 3);

    app.handle_action(&clock, now, StateActions::InputLocal(InputLocal::Tab));
    assert_eq!(app.library.selected_tab, LibraryTab::Year);
    let entries = &app.library.list_filter.entries;
    assert_eq!(entries.len(), 3);
    assert_eq!(entries[0], LibraryFilterEntry::All);
    assert_eq!(entries[1], LibraryFilterEntry::Year { year: Some(2020) });
    assert_eq!(entries[2], LibraryFilterEntry::Year { year: Some(2021) });
    assert_eq!(app.library.list_filter.selected, 0);
    // the filter is All again, so every track is visible behind its banner
    assert_eq!(app.library.list_tracks.entries.len(), 5);
}

#[test]
fn test_render_debounce_decisions() {
    assert_eq!(decide_render(false, 15), RenderDecision::RenderNow);
    assert_eq!(decide_render(false, 9), RenderDecision::ScheduleDelay);
    assert_eq!(decide_render(true, 1000), RenderDecision::Skip);

    // a burst of a hundred changes within the frame period yields one
    // immediate render and one scheduled one
    let mut rendered = 0;
    let mut scheduled = 0;
    let mut queued = false;
    let mut millis: u64 = 1000;
    for _ in 0..100 {
        match decide_render(queued, millis) {
            RenderDecision::RenderNow => {
                rendered += 1;
                millis = 0;
            },
            RenderDecision::ScheduleDelay => {
                scheduled += 1;
                queued = true;
            },
            RenderDecision::Skip => {},
        }
    }
    assert_eq!(rendered, 1);
    assert_eq!(scheduled, 1);
}

#[test]
fn test_expand_home_dir() {
    let home = Some("/h".to_string());
    assert_eq!(expand_home_dir(&"~/x".to_string(), &home), Ok("/h/x".to_string()));
    assert_eq!(expand_home_dir(&"/abs/x".to_string(), &home), Ok("/abs/x".to_string()));
    assert_eq!(expand_home_dir(&"~/x".to_string(), &None), Err("~/x".to_string()));
    // a name that merely begins with a tilde is no home-directory prefix
    assert_eq!(expand_home_dir(&"~x".to_string(), &home), Ok("~x".to_string()));
    assert_eq!(expand_home_dir(&"~".to_string(), &home), Ok("/h".to_string()));
    assert_eq!(expand_home_dir(&"~".to_string(), &None), Err("~".to_string()));
}

#[test]
fn test_fix_home_dir_paths() {
    let mut config = Config::init(vec!["~/Music".to_string(), "/data".to_string()]);
    config.logging.log_path = "~/log.txt".to_string();
    let fixed = config.fix_home_dir_paths(&Some("/h".to_string())).expect("paths expand");
    assert_eq!(fixed.media_dirs, vec!["/h/Music".to_string(), "/data".to_string()]);
    assert_eq!(fixed.logging.log_path, "/h/log.txt");
    assert_eq!(fixed.framerate, 60);

    let config = Config::init(vec!["~/Music".to_string()]);
    assert!(config.fix_home_dir_paths(&None).is_err());
}

#[test]
fn test_key_bindings() {
    assert_eq!(map_key(Key::Char('w')), KeyAction::Local(InputLocal::Up));
    assert_eq!(map_key(Key::Char('j')), KeyAction::Local(InputLocal::Down));
    assert_eq!(map_key(Key::Char('c')), KeyAction::Global(InputGlobal::PlayPause));
    assert_eq!(map_key(Key::Char('G')), KeyAction::Global(InputGlobal::SkipForward { sec: 60 }));
    assert_eq!(map_key(Key::Char('q')), KeyAction::Quit);
    assert_eq!(map_key(Key::Esc), KeyAction::Quit);
    assert_eq!(map_key(Key::Enter), KeyAction::Local(InputLocal::Select));
    assert_eq!(map_key(Key::Char(' ')), KeyAction::Local(InputLocal::SelectAlt));
    assert_eq!(map_key(Key::Char('?')), KeyAction::Ignored);
}

fn widget_common(state: PlaybackState, elapsed: u64, duration: u64) -> RenderDataCommon {
    RenderDataCommon {
        term: GlobalUiStateSnapshot {
            width: 40,
            height: 12,
            is_scanning: false,
            progress_width: 0,
            loading_rotation: 0,
        },
        playback: GlobalPlaybackSnapshot {
            playing: Some(1),
            loading: None,
            since: secs(0),
            elapsed: secs(elapsed),
            state,
            duration: secs(duration),
        },
        playlist: StatePlaylist::init(),
        theme: ConfTheme::init(),
    }
}

#[test]
fn test_progress_bar_end_points() {
    // elapsed 0: no filled cell; elapsed == duration: every cell filled
    let mut ts = TermState::new(ConfColor::init(), Color::Default, false);
    let bar = render_playback_status_widget(&mut ts, &widget_common(PlaybackState::Playing, 0, 60));
    let frame = ts.output();
    let filled = frame.chars().filter(|c| *c == '━').count();
    let rest = frame.chars().filter(|c| *c == '⋅').count();
    assert_eq!(bar, Some(19));
    assert_eq!(filled, 0);
    assert_eq!(rest, 19);

    let mut ts = TermState::new(ConfColor::init(), Color::Default, false);
    let bar = render_playback_status_widget(
        &mut ts,
        &widget_common(PlaybackState::Playing, 60, 60),
    );
    let frame = ts.output();
    let filled = frame.chars().filter(|c| *c == '━').count();
    let rest = frame.chars().filter(|c| *c == '⋅').count();
    assert_eq!(bar, Some(19));
    assert_eq!(filled, 19);
    assert_eq!(rest, 0);

    // a stopped player shows the slashed-out bar
    let mut ts = TermState::new(ConfColor::init(), Color::Default, false);
    let bar = render_playback_status_widget(
        &mut ts,
        &widget_common(PlaybackState::Stopped, 0, 0),
    );
    assert_eq!(bar, Some(20));
    assert!(ts.output().contains("--:--/--:--"));
}

#[test]
fn test_clock_states_are_exclusive() {
    let mut clock = GlobalPlayback::init();
    assert_eq!(clock.get_state(), PlaybackState::Stopped);
    clock.set_loading(Some(5));
    assert_eq!(clock.get_state(), PlaybackState::Loading);
    assert_eq!(clock.loading(), Some(5));
    clock.set_loading(None);
    clock.start_playback(5, secs(0), secs(9), secs(1));
    assert_eq!(clock.get_state(), PlaybackState::Playing);
    clock.pause_playback(secs(2));
    assert_eq!(clock.get_state(), PlaybackState::Paused);
    clock.stop_playback();
    assert_eq!(clock.get_state(), PlaybackState::Stopped);
}

#[test]
fn test_artists_equal_up_to_sort_key_collapse() {
    // "The Who" and "Who" share the sort key "who": the filter store keeps
    // only the first such artist row beside the ALL row
    let mut app = AppState::init();
    let clock = GlobalPlayback::init();
    let t1 = make_track("/m/w1.mp3", 1970, "The Who", "X", "One", 1, 30);
    let t2 = make_track("/m/w2.mp3", 1970, "Who", "Y", "Two", 1, 30);
    assert_ne!(t1.id_artist, t2.id_artist);
    app.handle_action(&clock, secs(0), StateActions::ScanAddSong { track: t1 });
    app.handle_action(&clock, secs(0), StateActions::ScanAddSong { track: t2 });
    assert_eq!(app.library.filters_artist.len(), 2);
}

#[test]
fn test_draw_library_view_header() {
    let mut app = AppState::init();
    let clock = GlobalPlayback::init();
    let t1 = make_track("/m/t1.mp3", 2020, "Ann", "A", "T1", 1, 30);
    app.handle_action(&clock, secs(0), StateActions::ScanAddSong { track: t1 });
    let term = GlobalUiStateSnapshot {
        width: 60,
        height: 12,
        is_scanning: false,
        progress_width: 0,
        loading_rotation: 0,
    };
    let playback = GlobalPlaybackSnapshot {
        playing: None,
        loading: None,
        since: secs(0),
        elapsed: secs(0),
        state: PlaybackState::Stopped,
        duration: secs(0),
    };
    let (common, view) = app.render_state(term, playback, ConfTheme::init());
    let library_view: RenderDataViewLibrary = match view {
        music_player::render_data::RenderDataView::Library(v) => v,
    };
    assert_eq!(library_view.list_height, 10);
    assert_eq!(library_view.track_select_mode, LibrarySelectMode::Artist);
    let mut ts = TermState::new(ConfColor::init(), Color::Default, false);
    draw_library_view(&mut ts, &common, &library_view);
    let frame = ts.output();
    assert!(frame.contains("filter by Artists"));
    assert!(frame.contains("select Artist"));
    assert!(frame.contains("ALL"));
    assert!(frame.contains("T1"));
    assert_eq!(frame.matches('┃').count(), 10);
}

