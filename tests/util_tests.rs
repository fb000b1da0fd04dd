use rmptui::app::{after_push, needs_play, parse_volume, seek_target, AfterPush, App, PlayerStatus};
use rmptui::browser::{directory_songs, EntryKind};
use rmptui::order::{sort_by_keys, sort_names};
use rmptui::format::{decimal_string, now_playing, state_label, PlayState};
use rmptui::order::{parse_u32, sort_for_listing};
use rmptui::paths::{join, last_component, library_path, parent, same_text};
use rmptui::search::{best_match, contains, find_first_containing, find_first_equal};
use rmptui::song::RSong;
use rmptui::utils::{eq_ignore_ascii_case, extension_matches, is_audio_file, FileExtension};

fn strings(v: &[&str]) -> Vec<String> {
    v.iter().map(|s| s.to_string()).collect()
}

#[test]
fn audio_extensions_ignore_case() {
    assert!(is_audio_file("song.MP3"));
    assert!(is_audio_file("dir/song.opus"));
    assert!(!is_audio_file("song.txt"));
    assert!(!is_audio_file("song"));
    assert!(!is_audio_file(".mp3"));
    assert!(!is_audio_file("a.mp3.part"));
    assert!("x.Wav".has_extension(&["wav"]));
    assert!(!"x.Wav".has_extension(&["mp3", "ogg"]));
}

#[test]
fn ascii_case_comparison() {
    assert!(eq_ignore_ascii_case("FlAc", "flac"));
    assert!(!eq_ignore_ascii_case("flac", "fla"));
    assert!(!eq_ignore_ascii_case("É", "é"));
}

#[test]
fn parse_decimal_numbers() {
    assert_eq!(parse_u32("42"), Some(42));
    assert_eq!(parse_u32("+7"), Some(7));
    assert_eq!(parse_u32("007"), Some(7));
    assert_eq!(parse_u32("4294967295"), Some(u32::MAX));
    assert_eq!(parse_u32("4294967296"), None);
    assert_eq!(parse_u32("99999999999999999999"), None);
    assert_eq!(parse_u32(""), None);
    assert_eq!(parse_u32("+"), None);
    assert_eq!(parse_u32("-1"), None);
    assert_eq!(parse_u32("1a"), None);
    assert_eq!(parse_u32(" 1"), None);
}

#[test]
fn lowercase_is_applied() {
    assert_eq!(sort_for_listing(strings(&["Éa", "éb", "ÉC"])), strings(&["Éa", "éb", "ÉC"]));
    assert_eq!(sort_for_listing(strings(&["b", "A", "a"])), strings(&["A", "a", "b"]));
    assert_eq!(sort_for_listing(strings(&["B", "a"])), strings(&["a", "B"]));
}

#[test]
fn substring_search() {
    assert!(contains("hello world", "o w"));
    assert!(contains("abc", ""));
    assert!(!contains("abc", "abcd"));
    assert!(!contains("abc", "ac"));
    assert!(contains("café", "fé"));
    let labels = strings(&["rock", "pop rock", "jazz"]);
    assert_eq!(find_first_equal(&labels, "pop rock"), Some(1));
    assert_eq!(find_first_equal(&labels, "pop"), None);
    assert_eq!(find_first_containing(&labels, "rock"), Some(0));
    assert_eq!(find_first_containing(&labels, "blues"), None);
}

#[test]
fn fuzzy_best_match_ranks_labels() {
    let labels = strings(&["kolbasobulko", "sandvico", "domo"]);
    assert_eq!(best_match("sandvico", &labels), Some(1));
    assert_eq!(best_match("domo", &labels), Some(2));
    assert_eq!(best_match("x", &Vec::new()), None);
}

#[test]
fn path_helpers() {
    assert_eq!(join(".", "a"), "./a");
    assert_eq!(parent("./a/b"), "./a");
    assert_eq!(parent("."), ".");
    assert_eq!(last_component("x/y/z.mp3"), "z.mp3");
    assert_eq!(last_component("z.mp3"), "z.mp3");
    assert_eq!(library_path("./a/b.mp3"), "a/b.mp3");
    assert_eq!(library_path("a/b.mp3"), "a/b.mp3");
    assert!(same_text("ü", "ü"));
    assert!(!same_text("u", "ü"));
}

#[test]
fn song_from_daemon_comments() {
    let comments = vec![
        ("ARTIST".to_string(), "Band".to_string()),
        ("AlbumArtist".to_string(), "Other".to_string()),
        ("Title".to_string(), "Song".to_string()),
        ("DURATION".to_string(), "215".to_string()),
        ("LastModified".to_string(), "2020".to_string()),
        ("Genre".to_string(), "Rock".to_string()),
        ("Name".to_string(), "n".to_string()),
    ];
    let s = RSong::new("a/b.mp3".to_string(), comments);
    assert_eq!(s.file, "a/b.mp3");
    assert_eq!(s.artist, Some("Other".to_string()));
    assert_eq!(s.title, Some("Song".to_string()));
    assert_eq!(s.duration, Some(215));
    assert_eq!(s.last_mod, Some("2020".to_string()));
    assert_eq!(s.name, Some("n".to_string()));
    assert_eq!(s.tags, vec![("Genre".to_string(), "Rock".to_string())]);
    let bad = RSong::new("c.mp3".to_string(), vec![("duration".to_string(), "long".to_string())]);
    assert_eq!(bad.duration, None);
}

#[test]
fn time_formatting() {
    assert_eq!(App::format_time(0), "00:00");
    assert_eq!(App::format_time(59), "00:59");
    assert_eq!(App::format_time(61), "01:01");
    assert_eq!(App::format_time(3600), "01:00:00");
    assert_eq!(App::format_time(3725), "01:02:05");
    assert_eq!(App::format_time(360000), "100:00:00");
    assert_eq!(decimal_string(1234567890), "1234567890");
}

#[test]
fn now_playing_text() {
    let mut s = RSong::with_file("x/y.mp3".to_string());
    assert_eq!(now_playing(&s), "x/y.mp3");
    s.title = Some("Song".to_string());
    assert_eq!(now_playing(&s), "Song");
    s.artist = Some("Band".to_string());
    assert_eq!(now_playing(&s), "\"Song\" By Band");
}

#[test]
fn state_labels() {
    assert_eq!(state_label(PlayState::Stop), "Stopped");
    assert_eq!(state_label(PlayState::Play), "Playing");
    assert_eq!(state_label(PlayState::Pause), "Paused");
}

#[test]
fn seek_targets_stay_in_range() {
    assert_eq!(seek_target(5, true), 7);
    assert_eq!(seek_target(5, false), 3);
    assert_eq!(seek_target(1, false), 0);
    assert_eq!(seek_target(0, false), 0);
    assert_eq!(seek_target(u64::MAX, true), u64::MAX);
}

#[test]
fn dmenu_choice_must_be_in_library() {
    let mut a = App::new(PlayerStatus { volume: 0, repeat: false, random: false });
    a.update_library(strings(&["a.mp3", "b/c.mp3"]));
    assert_eq!(a.dmenu_choice("b/c.mp3"), Some("b/c.mp3".to_string()));
    assert_eq!(a.dmenu_choice("c.mp3"), None);
    assert_eq!(a.get_full_path("c.mp3"), Some("b/c.mp3".to_string()));
    assert_eq!(a.get_full_path("zzz"), None);
}

#[test]
fn text_order_sort() {
    assert_eq!(sort_names(strings(&["b", "B", "a", "ab", ""])), strings(&["", "B", "a", "ab", "b"]));
}

#[test]
fn step_after_push() {
    assert_eq!(after_push(0, 1), AfterPush::Play);
    assert_eq!(after_push(3, 4), AfterPush::SwitchTo(3));
    assert!(needs_play(PlayState::Stop));
    assert!(!needs_play(PlayState::Pause));
    assert!(!needs_play(PlayState::Play));
}

#[test]
fn volume_argument() {
    assert_eq!(parse_volume("40"), Some(40));
    assert_eq!(parse_volume("100"), Some(100));
    assert_eq!(parse_volume("101"), None);
    assert_eq!(parse_volume("-5"), None);
    assert_eq!(parse_volume("loud"), None);
}

#[test]
fn audio_files_of_a_directory() {
    let listing = vec![
        (EntryKind::File, "a.mp3".to_string()),
        (EntryKind::Directory, "live".to_string()),
        (EntryKind::File, "cover.jpg".to_string()),
        (EntryKind::File, "b.OGG".to_string()),
    ];
    assert_eq!(directory_songs("./rock", &listing), strings(&["rock/a.mp3", "rock/b.OGG"]));
}

#[test]
fn sort_by_given_keys() {
    let entries = vec![
        (2u32, "b".to_string(), "two-b".to_string()),
        (1u32, "z".to_string(), "one-z".to_string()),
        (2u32, "a".to_string(), "two-a".to_string()),
        (1u32, "z".to_string(), "one-z-again".to_string()),
    ];
    assert_eq!(sort_by_keys(entries), strings(&["one-z", "one-z-again", "two-a", "two-b"]));
}

#[test]
fn comment_with_lowered_key() {
    let mut s = RSong::with_file("f.mp3".to_string());
    s.apply_comment("albumartist", "AlbumArtist".to_string(), "X".to_string());
    assert_eq!(s.artist, Some("X".to_string()));
    s.apply_comment("genre", "Genre".to_string(), "Rock".to_string());
    assert_eq!(s.tags, vec![("Genre".to_string(), "Rock".to_string())]);
    s.apply_comment("duration", "Time".to_string(), "12".to_string());
    assert_eq!(s.duration, Some(12));
}

#[test]
fn extension_matching() {
    assert!(extension_matches("FLAC", &["mp3", "flac"]));
    assert!(!extension_matches("fla", &["mp3", "flac"]));
    assert!(!extension_matches("mp3", &[]));
}
