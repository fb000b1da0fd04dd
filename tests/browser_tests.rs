use rmptui::browser::{entry_kind_of, EntryKind, FileBrowser};
use rmptui::song::RSong;

fn listing(v: &[(&str, &str)]) -> Vec<(String, String)> {
    v.iter().map(|(t, n)| (t.to_string(), n.to_string())).collect()
}

fn names(b: &FileBrowser) -> Vec<(EntryKind, String)> {
    b.filetree.clone()
}

#[test]
fn new_browser_starts_at_root() {
    let b = FileBrowser::new();
    assert_eq!(b.path, ".");
    assert_eq!(b.prev_path, ".");
    assert_eq!(b.selected, 0);
    assert!(b.filetree.is_empty());
}

#[test]
fn listing_shows_directories_then_audio_files() {
    let mut b = FileBrowser::new();
    b.update_directory(listing(&[
        ("file", "b.mp3"),
        ("directory", "rock"),
        ("file", "notes.txt"),
        ("directory", ".hidden"),
        ("playlist", "x.m3u"),
        ("file", "A.MP3"),
        ("directory", "Alpha"),
        ("file", "track.Flac"),
    ]));
    assert_eq!(
        names(&b),
        vec![
            (EntryKind::Directory, "Alpha".to_string()),
            (EntryKind::Directory, "rock".to_string()),
            (EntryKind::File, "A.MP3".to_string()),
            (EntryKind::File, "b.mp3".to_string()),
            (EntryKind::File, "track.Flac".to_string()),
        ]
    );
}

#[test]
fn numeric_names_sort_by_value_first() {
    let mut b = FileBrowser::new();
    b.update_directory(listing(&[
        ("directory", "10"),
        ("directory", "b"),
        ("directory", "9"),
        ("directory", "+2"),
        ("directory", "A"),
    ]));
    let got: Vec<String> = b.filetree.iter().map(|(_, n)| n.clone()).collect();
    assert_eq!(got, vec!["+2", "9", "10", "A", "b"]);
}

#[test]
fn equal_keys_keep_listing_order() {
    let mut b = FileBrowser::new();
    b.update_directory(listing(&[("directory", "Rock"), ("directory", "rock"), ("directory", "ROCK")]));
    let got: Vec<String> = b.filetree.iter().map(|(_, n)| n.clone()).collect();
    assert_eq!(got, vec!["Rock", "rock", "ROCK"]);
}

#[test]
fn listing_refresh_clamps_selection() {
    let mut b = FileBrowser::new();
    b.update_directory(listing(&[("directory", "a"), ("directory", "b"), ("directory", "c")]));
    b.selected = 2;
    b.update_directory(listing(&[("directory", "a")]));
    assert_eq!(b.selected, 0);
    b.update_directory(listing(&[]));
    assert_eq!(b.selected, 0);
}

#[test]
fn browser_next_prev_first_last() {
    let mut b = FileBrowser::new();
    b.next();
    assert_eq!(b.selected, 0);
    b.update_directory(listing(&[("directory", "a"), ("directory", "b")]));
    b.next();
    b.next();
    assert_eq!(b.selected, 1);
    b.prev();
    b.prev();
    assert_eq!(b.selected, 0);
    b.select_last();
    assert_eq!(b.selected, 1);
    b.select_first();
    assert_eq!(b.selected, 0);
}

#[test]
fn go_back_at_root_stays_at_root() {
    let mut b = FileBrowser::default();
    b.selected = 3;
    b.prev_selected = 1;
    b.handle_go_back();
    assert_eq!(b.path, ".");
    assert_eq!(b.selected, 1);
}

#[test]
fn nested_enter_keeps_one_level_of_history() {
    let mut b = FileBrowser::new();
    b.enter_directory("a");
    b.enter_directory("b");
    assert_eq!(b.path, "./a/b");
    assert_eq!(b.prev_path, "./a");
    b.handle_go_back();
    assert_eq!(b.path, "./a");
    b.handle_go_back();
    assert_eq!(b.path, ".");
}

#[test]
fn song_paths_and_details() {
    let mut b = FileBrowser::new();
    b.enter_directory("music");
    b.update_directory(listing(&[("directory", "live"), ("file", "x.mp3"), ("file", "y.ogg")]));
    let paths = b.song_paths();
    assert_eq!(paths, vec![None, Some("music/x.mp3".to_string()), Some("music/y.ogg".to_string())]);
    let mut found = RSong::with_file("music/x.mp3".to_string());
    found.title = Some("X".to_string());
    b.set_songs(vec![None, Some(found), None]);
    assert_eq!(b.songs.len(), 3);
    assert_eq!(b.songs[0].file, "");
    assert_eq!(b.songs[1].title, Some("X".to_string()));
    assert_eq!(b.songs[2].file, "Not a song");
}

#[test]
fn entry_kinds_of_daemon_types() {
    assert_eq!(entry_kind_of("directory"), Some(EntryKind::Directory));
    assert_eq!(entry_kind_of("file"), Some(EntryKind::File));
    assert_eq!(entry_kind_of("playlist"), None);
    assert_eq!(entry_kind_of("File"), None);
}
