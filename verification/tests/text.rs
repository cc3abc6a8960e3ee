use music_player::config::ConfLogLevel;
use music_player::library_entry::LibraryArtistEntry;
use music_player::library_entry::LibraryFilterEntry;
use music_player::library_entry::TrackFile;
use music_player::library_entry::str_trunc;
use music_player::scanner::is_audio_extension;
use music_player::text_util::chars_string;
use music_player::text_util::term_text;
use music_player::time_span::TimeSpan;
use music_player::time_span::render_duration;
use unicode_width::UnicodeWidthStr;

struct TextTest {
    pub reference: &'static str,
    pub ref_len: usize,
    pub tests: Vec<TextTestGroup>,
}

struct TextTestGroup {
    pub target_len: usize,
    pub result: &'static str,
}

#[test]
fn test_ui_text_len() {
    [
        TextTest {
            reference: "xXx yYy zZz",
            ref_len: 11,
            tests: vec![
                TextTestGroup { target_len: 10, result: "xXx yYy..." },
                TextTestGroup { target_len: 12, result: "xXx yYy zZz " },
            ],
        },
        TextTest {
            reference: "平仮名, ひらがな",
            ref_len: 16,
            tests: vec![
                TextTestGroup { target_len: 14, result: "平仮名, ひ... " },
                TextTestGroup { target_len: 15, result: "平仮名, ひら..." },
                TextTestGroup { target_len: 17, result: "平仮名, ひらがな " },
            ],
        },
        TextTest {
            reference: "Novak 監視™",
            ref_len: 11,
            tests: vec![
                TextTestGroup { target_len: 09, result: "Novak ..." },
                TextTestGroup { target_len: 10, result: "Novak ... " },
                TextTestGroup { target_len: 12, result: "Novak 監視™ " },
            ],
        },
        TextTest {
            reference: "ラン",
            ref_len: 4,
            tests: vec![
                TextTestGroup { target_len: 0, result: "" },
                TextTestGroup { target_len: 1, result: "." },
                TextTestGroup { target_len: 2, result: ".." },
                TextTestGroup { target_len: 3, result: "..." },
                TextTestGroup { target_len: 5, result: "ラン " },
            ],
        },
    ]
    .iter()
    .for_each(|test: &TextTest| {
        println!("Testing: {}", test.reference);
        let reference = test.reference.to_string();
        {
            let text = term_text(reference.clone(), test.ref_len);
            assert_eq!(text, reference);
            assert_eq!(text.width(), test.ref_len);
        }
        test.tests.iter().for_each(|sub_test| {
            let text = term_text(reference.clone(), sub_test.target_len);
            println!("{}, {}, {}", text, text.len(), text.width());
            assert_eq!(text, sub_test.result.to_string());
            assert_eq!(text.width(), sub_test.target_len);
        });
    });
}

#[test]
fn test_term_text_degenerate_targets() {
    for (target, expect) in [(0usize, ""), (1, "."), (2, ".."), (3, "...")] {
        assert_eq!(term_text("anything at all".to_string(), target), expect);
    }
}

#[test]
fn test_render_duration_formats() {
    let mut out: Vec<char> = Vec::new();
    render_duration(&mut out, TimeSpan { secs: 30, nanos: 0 });
    assert_eq!(chars_string(&out), "00:30");

    let mut out: Vec<char> = Vec::new();
    render_duration(&mut out, TimeSpan { secs: 3665, nanos: 0 });
    assert_eq!(chars_string(&out), "01:01:05");

    let mut out: Vec<char> = Vec::new();
    render_duration(&mut out, TimeSpan { secs: 59 * 60 + 59, nanos: 0 });
    assert_eq!(chars_string(&out), "59:59");
}

#[test]
fn test_str_trunc_marks_cut() {
    assert_eq!(str_trunc(&"abcdef".to_string(), 4), "abc>");
    assert_eq!(str_trunc(&"abc".to_string(), 4), "abc");
}

#[test]
fn test_audio_extensions() {
    for ext in ["mp3", "flac", "ogg", "m4a", "opus", "wav", "mp+"] {
        assert!(is_audio_extension(ext));
    }
    for ext in ["txt", "jpg", "", "mp5", "MP3"] {
        assert!(!is_audio_extension(ext));
    }
}

#[test]
fn test_artist_sort_key_strips_the() {
    let mut track = TrackFile {
        is_album_padding: false,
        id_artist: 7,
        id_album: 0,
        id_track: 0,
        duration: TimeSpan { secs: 0, nanos: 0 },
        year: None,
        album_artist: Some("The Beatles".to_string()),
        album_title: None,
        album_number: None,
        track_artist: None,
        track_title: String::new(),
        track_number: None,
    };
    let entry = LibraryArtistEntry::from_track(&track);
    assert_eq!(entry.artist_id, 7);
    assert_eq!(entry.name_display.as_deref(), Some("The Beatles"));
    assert_eq!(entry.name_compare.as_deref(), Some("beatles"));

    track.album_artist = Some("Queen".to_string());
    let entry = LibraryArtistEntry::from_track(&track);
    assert_eq!(entry.name_compare.as_deref(), Some("queen"));
}

#[test]
fn test_filter_entry_names() {
    assert_eq!(LibraryFilterEntry::All.name(), "ALL");
    assert_eq!(LibraryFilterEntry::Year { year: Some(1999) }.name(), "1999");
    assert_eq!(LibraryFilterEntry::Year { year: None }.name(), "----");
    let missing = LibraryFilterEntry::Artist(LibraryArtistEntry {
        artist_id: 1,
        name_compare: None,
        name_display: None,
    });
    assert_eq!(missing.name(), "<missing>");
}

#[test]
fn test_log_level_names() {
    assert_eq!(ConfLogLevel::Error.to_level(), "ERROR");
    assert_eq!(ConfLogLevel::Warning.to_level(), "WARN");
    assert_eq!(ConfLogLevel::Info.to_level(), "INFO");
    assert_eq!(ConfLogLevel::Debug.to_level(), "DEBUG");
    assert_eq!(ConfLogLevel::Trace.to_level(), "TRACE");
}

#[test]
fn test_hash_is_stable_and_discriminating() {
    let a: Vec<char> = "abc".chars().collect();
    let b: Vec<char> = "abd".chars().collect();
    assert_eq!(music_player::hashing::hash(&a), music_player::hashing::hash(&a));
    assert_ne!(music_player::hashing::hash(&a), music_player::hashing::hash(&b));
    assert_ne!(
        music_player::hashing::hash_list(1, &a),
        music_player::hashing::hash_list(2, &a)
    );
}
