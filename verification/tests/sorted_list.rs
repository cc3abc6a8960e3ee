use music_player::library_entry::TrackFile;
use music_player::sorted_list::PADDING;
use music_player::sorted_list::SortedListState;
use music_player::time_span::TimeSpan;

fn element(selectable: bool) -> TrackFile {
    TrackFile {
        is_album_padding: !selectable,
        id_artist: 0,
        id_album: 0,
        id_track: 0,
        duration: TimeSpan { secs: 0, nanos: 0 },
        year: None,
        album_artist: None,
        album_title: None,
        album_number: None,
        track_artist: None,
        track_title: String::new(),
        track_number: None,
    }
}

#[test]
fn test_sorted_list_scroll_down() {
    let term_height = 10;
    let mut state = SortedListState {
        unique: false,
        selected: 0,
        scroll_anchor: 0,
        entries: vec![element(true); 30],
    };

    for i in 0..29 {
        let i = i + 1;
        println!("selected: {}", i);

        state.select_next(1);
        state.update_scroll(term_height);

        assert_eq!(
            state,
            SortedListState {
                unique: false,
                selected: i,
                scroll_anchor: (i + 1).saturating_sub(term_height - PADDING).min(30 - term_height),
                entries: vec![element(true); 30],
            }
        );
    }
}

#[test]
fn test_sorted_list_scroll_up() {
    let term_height = 10;
    let mut state = SortedListState {
        unique: false,
        selected: 29,
        scroll_anchor: 29 - term_height,
        entries: vec![element(true); 30],
    };

    for i in 0..29 {
        let i = 29 - 1 - i;
        println!("selected: {}", i);

        state.select_prev(1);
        state.update_scroll(term_height);

        assert_eq!(
            state,
            SortedListState {
                unique: false,
                selected: i,
                scroll_anchor: i.saturating_sub(PADDING).min(30 - term_height),
                entries: vec![element(true); 30],
            }
        );
    }
}

#[test]
fn test_sorted_list_scroll_past_selectable() {
    let mut state = SortedListState {
        unique: false,
        selected: 0,
        scroll_anchor: 0,
        entries: vec![element(true), element(false), element(true)],
    };

    state.select_next(1);
    assert_eq!(
        state,
        SortedListState {
            unique: false,
            selected: 2,
            scroll_anchor: 0,
            entries: vec![element(true), element(false), element(true)],
        }
    );

    state.select_prev(1);
    assert_eq!(
        state,
        SortedListState {
            unique: false,
            selected: 0,
            scroll_anchor: 0,
            entries: vec![element(true), element(false), element(true)],
        }
    );
}

#[test]
fn test_sorted_list_add_element() {
    let mut state: SortedListState<TrackFile> = SortedListState {
        unique: false,
        selected: 0,
        scroll_anchor: 0,
        entries: vec![],
    };

    state.add(element(false));
    state.add(element(true));
    state.add(element(true));
    state.add(element(true));

    assert_eq!(
        state,
        SortedListState {
            unique: false,
            selected: 1,
            scroll_anchor: 0,
            entries: vec![element(false), element(true), element(true), element(true)],
        }
    );
}

fn numbered(n: u8) -> TrackFile {
    let mut t = element(true);
    t.track_number = Some(n);
    t.id_track = n as u64;
    t
}

#[test]
fn test_sorted_list_add_order_independent() {
    let mut a: SortedListState<TrackFile> = SortedListState::new(false);
    let mut b: SortedListState<TrackFile> = SortedListState::new(false);
    for n in [3u8, 1, 4, 2, 5] {
        a.add(numbered(n));
    }
    for n in [5u8, 4, 3, 2, 1] {
        b.add(numbered(n));
    }
    assert_eq!(a.entries, b.entries);
    let numbers: Vec<u8> = a.entries.iter().map(|t| t.track_number.unwrap()).collect();
    assert_eq!(numbers, vec![1, 2, 3, 4, 5]);

    let snapshot: Vec<TrackFile> = a.entries.clone();
    let mut c: SortedListState<TrackFile> = SortedListState::new(false);
    c.replace_all(snapshot);
    assert_eq!(c.entries, a.entries);
}

#[test]
fn test_sorted_list_view_zero_height() {
    let mut state = SortedListState {
        unique: false,
        selected: 0,
        scroll_anchor: 0,
        entries: vec![element(true); 5],
    };
    let (window, cursor) = state.view(0);
    assert_eq!(window.len(), 0);
    assert_eq!(cursor, 0);
}

#[test]
fn test_sorted_list_view_window_and_padding() {
    let mut state = SortedListState {
        unique: false,
        selected: 0,
        scroll_anchor: 0,
        entries: (1..=30u8).map(numbered).collect(),
    };
    // cursor at 0: window starts at the top
    let (window, cursor) = state.view(10);
    assert_eq!(window.len(), 10);
    assert_eq!(cursor, 0);
    assert_eq!(window[0].track_number, Some(1));

    // step down ten times: the anchor starts moving once the cursor
    // crosses anchor + 7, and never exceeds 30 - 10 = 20
    for step in 1usize..=10 {
        state.select_next(1);
        let (window, cursor) = state.view(10);
        assert_eq!(window.len(), 10);
        let expected_anchor = (step + 1).saturating_sub(8).min(20);
        assert_eq!(state.scroll_anchor, expected_anchor);
        assert_eq!(cursor, step - expected_anchor);
        assert_eq!(window[0].track_number, Some(expected_anchor as u8 + 1));
        assert_eq!(window[9].track_number, Some(expected_anchor as u8 + 10));
    }
    assert_eq!(state.scroll_anchor, 3);
}

#[test]
fn test_sorted_list_unique_drops_duplicates() {
    let mut state: SortedListState<TrackFile> = SortedListState::new(true);
    state.add(numbered(1));
    state.add(numbered(2));
    state.add(numbered(2));
    assert_eq!(state.entries.len(), 2);
}
