use rmptui::app::{Action, App, AppendTarget, InputMode, KeyCode, KeyPress, PlayerStatus, SelectedTab, VolumeStatus};
use rmptui::browser::EntryKind;
use rmptui::handler::{handle_key_events, handle_mouse_events, MouseAction};
use rmptui::song::RSong;

fn app() -> App {
    App::new(PlayerStatus { volume: 50, repeat: false, random: true })
}

fn press(app: &mut App, code: KeyCode) -> Action {
    handle_key_events(KeyPress { code, control: false }, app)
}

fn ch(app: &mut App, c: char) -> Action {
    press(app, KeyCode::Char(c))
}

fn queue_of(files: &[&str]) -> Vec<RSong> {
    files.iter().map(|f| RSong::with_file(f.to_string())).collect()
}

fn strings(v: &[&str]) -> Vec<String> {
    v.iter().map(|s| s.to_string()).collect()
}

fn browser_with(app: &mut App, path: &str, entries: &[(EntryKind, &str)]) {
    app.browser.path = path.to_string();
    app.browser.filetree = entries.iter().map(|(k, n)| (*k, n.to_string())).collect();
    app.selected_tab = SelectedTab::DirectoryBrowser;
}

#[test]
fn queue_down_twice_clamps_at_last() {
    let mut a = app();
    a.update_queue(queue_of(&["a.mp3", "b.mp3", "c.mp3"]));
    a.queue_list.index = 1;
    assert!(matches!(press(&mut a, KeyCode::Down), Action::Nothing));
    assert!(matches!(press(&mut a, KeyCode::Down), Action::Nothing));
    assert_eq!(a.queue_list.index, 2);
    ch(&mut a, 'j');
    assert_eq!(a.queue_list.index, 2);
}

#[test]
fn enter_directory_then_go_back() {
    let mut a = app();
    browser_with(&mut a, "./music", &[(EntryKind::File, "x.mp3"), (EntryKind::Directory, "rock")]);
    a.browser.prev_path = ".".to_string();
    a.browser.selected = 1;
    match press(&mut a, KeyCode::Enter) {
        Action::ListDirectory(p) => assert_eq!(p, "./music/rock"),
        other => panic!("unexpected {:?}", other),
    }
    assert_eq!(a.browser.path, "./music/rock");
    assert_eq!(a.browser.prev_path, "./music");
    assert_eq!(a.browser.selected, 0);
    a.browser.update_directory(vec![("file".to_string(), "song.mp3".to_string())]);
    match press(&mut a, KeyCode::Left) {
        Action::ListDirectory(p) => assert_eq!(p, "./music"),
        other => panic!("unexpected {:?}", other),
    }
    assert_eq!(a.browser.path, "./music");
    assert_eq!(a.browser.selected, 1);
}

#[test]
fn go_back_from_first_level_returns_to_root() {
    let mut a = app();
    browser_with(&mut a, ".", &[(EntryKind::Directory, "music")]);
    press(&mut a, KeyCode::Enter);
    assert_eq!(a.browser.path, "./music");
    assert_eq!(a.browser.prev_path, ".");
    match ch(&mut a, 'h') {
        Action::ListDirectory(p) => assert_eq!(p, "."),
        other => panic!("unexpected {:?}", other),
    }
    assert_eq!(a.browser.path, ".");
}

#[test]
fn search_left_then_backspace() {
    let mut a = app();
    ch(&mut a, '/');
    assert_eq!(a.inputmode, InputMode::Editing);
    for c in "test".chars() {
        ch(&mut a, c);
    }
    assert_eq!(a.search_input.input, "test");
    assert_eq!(a.search_input.cursor, 4);
    press(&mut a, KeyCode::Left);
    press(&mut a, KeyCode::Backspace);
    assert_eq!(a.search_input.input, "tet");
    assert_eq!(a.search_input.cursor, 2);
}

#[test]
fn search_edit_with_multibyte_text() {
    let mut a = app();
    a.inputmode = InputMode::Editing;
    for c in "café".chars() {
        ch(&mut a, c);
    }
    press(&mut a, KeyCode::Left);
    press(&mut a, KeyCode::Backspace);
    assert_eq!(a.search_input.input, "caé");
    assert_eq!(a.search_input.cursor, 2);
    press(&mut a, KeyCode::Right);
    press(&mut a, KeyCode::Backspace);
    assert_eq!(a.search_input.input, "ca");
    assert_eq!(a.search_input.cursor, 2);
}

#[test]
fn new_playlist_from_queue_song() {
    let mut a = app();
    a.update_playlists(strings(&["Chill"]));
    a.update_queue(queue_of(&["x/one.mp3", "y/two.mp3"]));
    a.queue_list.index = 1;
    ch(&mut a, 'a');
    assert!(a.playlist_popup);
    assert_eq!(a.append_list.list[0], "New Playlist");
    a.append_list.index = 0;
    assert!(matches!(press(&mut a, KeyCode::Enter), Action::Nothing));
    assert_eq!(a.inputmode, InputMode::NewPlaylist);
    assert_eq!(a.pl_new_pl_songs_buffer, strings(&["y/two.mp3"]));
    assert!(!a.playlist_popup);
    for c in "Favs".chars() {
        ch(&mut a, c);
    }
    match press(&mut a, KeyCode::Enter) {
        Action::CreatePlaylist(name, songs) => {
            assert_eq!(name, "Favs");
            assert_eq!(songs, strings(&["y/two.mp3"]));
        },
        other => panic!("unexpected {:?}", other),
    }
    assert_eq!(a.inputmode, InputMode::Normal);
    assert!(a.pl_new_pl_songs_buffer.is_empty());
    assert_eq!(a.pl_new_pl_input.input, "");
}

#[test]
fn editing_mode_blocks_normal_keymaps() {
    let mut a = app();
    a.update_queue(queue_of(&["a.mp3", "b.mp3"]));
    a.inputmode = InputMode::Editing;
    a.playlist_popup = true;
    for c in ['q', 'p', 'c', 'd', 'a', 'U', '1', '3', ' ', 'J'] {
        assert!(matches!(ch(&mut a, c), Action::Nothing));
    }
    assert!(matches!(press(&mut a, KeyCode::Tab), Action::Nothing));
    assert!(a.running);
    assert_eq!(a.selected_tab, SelectedTab::Queue);
    assert_eq!(a.queue_list.list.len(), 2);
    assert!(!a.should_update_song_list);
    assert_eq!(a.search_input.input, "qpcdaU13 J");
    press(&mut a, KeyCode::Esc);
    assert_eq!(a.inputmode, InputMode::Normal);
    assert_eq!(a.search_input.input, "");
}

#[test]
fn search_jumps_to_best_match() {
    let mut a = app();
    a.selected_tab = SelectedTab::Playlists;
    a.update_playlists(strings(&["alpha", "beta mix", "gamma"]));
    a.inputmode = InputMode::Editing;
    for c in "gamma".chars() {
        ch(&mut a, c);
    }
    press(&mut a, KeyCode::Enter);
    assert_eq!(a.pl_list.index, 2);
    assert_eq!(a.inputmode, InputMode::Normal);
    assert_eq!(a.search_input.input, "");
}

#[test]
fn search_selects_the_best_candidate_itself() {
    let mut a = app();
    a.selected_tab = SelectedTab::Playlists;
    a.update_playlists(strings(&["rock", "rock live"]));
    a.pl_list.index = 1;
    a.inputmode = InputMode::Editing;
    for c in "rock".chars() {
        ch(&mut a, c);
    }
    press(&mut a, KeyCode::Enter);
    assert_eq!(a.pl_list.index, 0);
}

#[test]
fn search_follows_the_active_tab() {
    let mut a = app();
    a.update_queue(queue_of(&["x/alpha.mp3", "y/omega.mp3"]));
    browser_with(&mut a, ".", &[(EntryKind::File, "omega.mp3"), (EntryKind::File, "alpha.mp3")]);
    a.selected_tab = SelectedTab::Queue;
    a.inputmode = InputMode::Editing;
    for c in "y/omega.mp3".chars() {
        ch(&mut a, c);
    }
    press(&mut a, KeyCode::Enter);
    assert_eq!(a.queue_list.index, 1);
    assert_eq!(a.browser.selected, 0);
}

#[test]
fn playlist_tab_sorted_popup_in_daemon_order() {
    let mut a = app();
    a.update_playlists(strings(&["b", "a", "C"]));
    assert_eq!(a.pl_list.list, strings(&["C", "a", "b"]));
    assert_eq!(a.append_list.list, strings(&["New Playlist", "Current Playlist", "b", "a", "C"]));
}

#[test]
fn refresh_keeps_daemon_order() {
    let mut a = app();
    a.update_playlists(strings(&["b", "a"]));
    assert_eq!(a.pl_list.list, strings(&["a", "b"]));
    a.pl_list.index = 1;
    a.refresh_playlists(strings(&["b", "a"]));
    assert_eq!(a.pl_list.list, strings(&["b", "a"]));
    assert_eq!(a.append_list.list, strings(&["New Playlist", "Current Playlist", "b", "a"]));
    assert_eq!(a.pl_list.index, 1);
    a.refresh_playlists(strings(&["c"]));
    assert_eq!(a.pl_list.index, 0);
}

#[test]
fn search_on_empty_tab_does_nothing() {
    let mut a = app();
    a.inputmode = InputMode::Editing;
    ch(&mut a, 'x');
    press(&mut a, KeyCode::Enter);
    assert_eq!(a.queue_list.index, 0);
}

#[test]
fn quit_keys() {
    let mut a = app();
    ch(&mut a, 'q');
    assert!(!a.running);
    let mut b = app();
    handle_key_events(KeyPress { code: KeyCode::Char('c'), control: true }, &mut b);
    assert!(!b.running);
}

#[test]
fn clear_queue_key_waits_for_the_daemon() {
    let mut a = app();
    a.update_queue(queue_of(&["a.mp3", "b.mp3"]));
    a.queue_list.index = 1;
    assert!(matches!(ch(&mut a, 'c'), Action::ClearQueue));
    assert_eq!(a.queue_list.list.len(), 2);
    assert_eq!(a.queue_list.index, 1);
    assert!(a.running);
    a.update_queue(Vec::new());
    assert!(a.queue_list.list.is_empty());
    assert_eq!(a.queue_list.index, 0);
}

#[test]
fn playback_keys() {
    let mut a = app();
    assert!(matches!(ch(&mut a, 'p'), Action::TogglePause));
    assert!(matches!(ch(&mut a, 's'), Action::Pause));
    assert!(matches!(ch(&mut a, 'r'), Action::SetRepeat(true)));
    assert!(matches!(ch(&mut a, 'z'), Action::SetRandom(false)));
    assert!(matches!(ch(&mut a, 'D'), Action::Dmenu));
    assert!(matches!(ch(&mut a, 'f'), Action::Nothing));
    assert!(matches!(ch(&mut a, '>'), Action::Nothing));
    a.update_queue(queue_of(&["a.mp3"]));
    assert!(matches!(ch(&mut a, 'f'), Action::SeekForward));
    assert!(matches!(ch(&mut a, 'b'), Action::SeekBackward));
    assert!(matches!(ch(&mut a, '>'), Action::NextSong));
    assert!(matches!(ch(&mut a, '<'), Action::PrevSong));
}

#[test]
fn volume_keys() {
    let mut a = app();
    assert!(matches!(ch(&mut a, '+'), Action::SetVolume(52)));
    assert!(matches!(ch(&mut a, '-'), Action::SetVolume(48)));
    a.update_status(PlayerStatus { volume: 99, repeat: false, random: false });
    assert!(matches!(ch(&mut a, '='), Action::Nothing));
    a.update_status(PlayerStatus { volume: 1, repeat: false, random: false });
    assert!(matches!(ch(&mut a, '-'), Action::Nothing));
    a.update_status(PlayerStatus { volume: 127, repeat: false, random: false });
    assert!(matches!(ch(&mut a, '+'), Action::Nothing));
}

#[test]
fn mute_toggles() {
    let mut a = app();
    assert!(matches!(ch(&mut a, 'm'), Action::SetVolume(0)));
    assert_eq!(a.volume_status, VolumeStatus::Muted(50));
    assert!(matches!(ch(&mut a, 'm'), Action::SetVolume(50)));
    assert_eq!(a.volume_status, VolumeStatus::Unmuted);
}

#[test]
fn tab_keys_cycle_and_select() {
    let mut a = app();
    assert_eq!(a.selected_tab, SelectedTab::Queue);
    press(&mut a, KeyCode::Tab);
    assert_eq!(a.selected_tab, SelectedTab::DirectoryBrowser);
    press(&mut a, KeyCode::Tab);
    assert_eq!(a.selected_tab, SelectedTab::Playlists);
    press(&mut a, KeyCode::Tab);
    assert_eq!(a.selected_tab, SelectedTab::Queue);
    ch(&mut a, '3');
    assert_eq!(a.selected_tab, SelectedTab::Playlists);
    ch(&mut a, '2');
    assert_eq!(a.selected_tab, SelectedTab::DirectoryBrowser);
    ch(&mut a, '1');
    assert_eq!(a.selected_tab, SelectedTab::Queue);
}

#[test]
fn rescan_then_tick() {
    let mut a = app();
    assert!(!a.tick(false));
    assert!(matches!(ch(&mut a, 'U'), Action::Rescan));
    assert!(!a.tick(true));
    assert!(a.tick(false));
    assert!(!a.tick(false));
}

#[test]
fn queue_delete_selects_song_above_at_end() {
    let mut a = app();
    a.update_queue(queue_of(&["a", "b", "c"]));
    a.queue_list.index = 2;
    assert!(matches!(ch(&mut a, 'd'), Action::Delete(2)));
    assert_eq!(a.queue_list.index, 1);
    a.queue_list.index = 0;
    assert!(matches!(ch(&mut a, 'd'), Action::Delete(0)));
    assert_eq!(a.queue_list.index, 0);
    let mut e = app();
    assert!(matches!(ch(&mut e, 'd'), Action::Nothing));
}

#[test]
fn queue_swap_keys() {
    let mut a = app();
    a.update_queue(queue_of(&["a", "b", "c"]));
    assert!(matches!(ch(&mut a, 'J'), Action::Swap(0, 1)));
    assert_eq!(a.queue_list.index, 1);
    assert!(matches!(ch(&mut a, 'K'), Action::Swap(1, 0)));
    assert_eq!(a.queue_list.index, 0);
    assert!(matches!(ch(&mut a, 'K'), Action::Nothing));
    a.queue_list.index = 2;
    assert!(matches!(ch(&mut a, 'J'), Action::Nothing));
}

#[test]
fn queue_jump_and_play_keys() {
    let mut a = app();
    a.update_queue(queue_of(&["a", "b", "c"]));
    ch(&mut a, 'G');
    assert_eq!(a.queue_list.index, 2);
    assert!(matches!(press(&mut a, KeyCode::Enter), Action::SwitchTo(2)));
    ch(&mut a, 'g');
    assert_eq!(a.queue_list.index, 0);
    let mut e = app();
    assert!(matches!(ch(&mut e, 'l'), Action::Nothing));
    ch(&mut e, 'G');
    assert_eq!(e.queue_list.index, 0);
}

#[test]
fn space_removes_every_copy_from_queue() {
    let mut a = app();
    a.update_queue(queue_of(&["a", "b", "a", "c"]));
    a.queue_list.index = 2;
    match ch(&mut a, ' ') {
        Action::RemoveFromQueue(ps) => assert_eq!(ps, vec![2, 0]),
        other => panic!("unexpected {:?}", other),
    }
    let mut b = app();
    b.update_queue(queue_of(&["a", "b"]));
    b.queue_list.index = 1;
    ch(&mut b, ' ');
    assert_eq!(b.queue_list.index, 0);
}

#[test]
fn space_on_browser_file_toggles_queue_membership() {
    let mut a = app();
    a.update_queue(queue_of(&["rock/x.mp3"]));
    browser_with(&mut a, "./rock", &[(EntryKind::File, "x.mp3"), (EntryKind::File, "y.mp3")]);
    match ch(&mut a, ' ') {
        Action::RemoveFromQueue(ps) => assert_eq!(ps, vec![0]),
        other => panic!("unexpected {:?}", other),
    }
    assert_eq!(a.browser.selected, 1);
    match ch(&mut a, ' ') {
        Action::PushSongs(s) => assert_eq!(s, strings(&["rock/y.mp3"])),
        other => panic!("unexpected {:?}", other),
    }
    assert_eq!(a.browser.selected, 1);
}

#[test]
fn space_on_browser_directory_enqueues_it() {
    let mut a = app();
    browser_with(&mut a, ".", &[(EntryKind::Directory, "jazz")]);
    match ch(&mut a, ' ') {
        Action::EnqueueDirectory(d) => assert_eq!(d, "./jazz"),
        other => panic!("unexpected {:?}", other),
    }
}

#[test]
fn enter_on_browser_file() {
    let mut a = app();
    a.update_queue(queue_of(&["pop/a.mp3", "rock/b.mp3"]));
    browser_with(&mut a, "./rock", &[(EntryKind::File, "b.mp3"), (EntryKind::File, "c.mp3")]);
    assert!(matches!(press(&mut a, KeyCode::Enter), Action::SwitchTo(1)));
    ch(&mut a, 'j');
    match ch(&mut a, 'l') {
        Action::PlayFile(p) => assert_eq!(p, "rock/c.mp3"),
        other => panic!("unexpected {:?}", other),
    }
}

#[test]
fn browser_keys_on_empty_listing() {
    let mut a = app();
    a.selected_tab = SelectedTab::DirectoryBrowser;
    assert!(matches!(ch(&mut a, 'j'), Action::Nothing));
    assert!(matches!(press(&mut a, KeyCode::Enter), Action::Nothing));
    ch(&mut a, 'G');
    assert_eq!(a.browser.selected, 0);
    assert!(matches!(ch(&mut a, ' '), Action::Nothing));
}

#[test]
fn rename_playlist_flow() {
    let mut a = app();
    a.update_playlists(strings(&["old", "other"]));
    a.selected_tab = SelectedTab::Playlists;
    ch(&mut a, 'R');
    assert_eq!(a.inputmode, InputMode::PlaylistRename);
    for c in "new".chars() {
        ch(&mut a, c);
    }
    match press(&mut a, KeyCode::Enter) {
        Action::RenamePlaylist(from, to) => {
            assert_eq!(from, "old");
            assert_eq!(to, "new");
        },
        other => panic!("unexpected {:?}", other),
    }
    assert_eq!(a.inputmode, InputMode::Normal);
    assert_eq!(a.pl_newname_input.input, "");
    ch(&mut a, 'R');
    ch(&mut a, 'z');
    assert!(matches!(press(&mut a, KeyCode::Esc), Action::Nothing));
    assert_eq!(a.inputmode, InputMode::Normal);
    assert_eq!(a.pl_newname_input.input, "");
}

#[test]
fn rename_key_only_in_playlists_tab() {
    let mut a = app();
    ch(&mut a, 'R');
    assert_eq!(a.inputmode, InputMode::Normal);
}

#[test]
fn playlist_enter_loads_it() {
    let mut a = app();
    a.selected_tab = SelectedTab::Playlists;
    assert!(matches!(press(&mut a, KeyCode::Enter), Action::Nothing));
    a.update_playlists(strings(&["one", "two"]));
    ch(&mut a, 'j');
    match ch(&mut a, ' ') {
        Action::LoadPlaylist(n) => assert_eq!(n, "two"),
        other => panic!("unexpected {:?}", other),
    }
}

#[test]
fn append_popup_navigation_and_close() {
    let mut a = app();
    a.update_playlists(strings(&["Chill"]));
    ch(&mut a, 'a');
    ch(&mut a, 'j');
    ch(&mut a, 'j');
    ch(&mut a, 'j');
    assert_eq!(a.append_list.index, 2);
    assert!(matches!(ch(&mut a, 'p'), Action::Nothing));
    ch(&mut a, 'k');
    assert_eq!(a.append_list.index, 1);
    ch(&mut a, 'q');
    assert!(!a.playlist_popup);
    assert!(a.running);
}

#[test]
fn append_queue_song_to_targets() {
    let mut a = app();
    a.update_playlists(strings(&["Chill"]));
    a.update_queue(queue_of(&["s.mp3"]));
    ch(&mut a, 'a');
    a.append_list.index = 1;
    match press(&mut a, KeyCode::Enter) {
        Action::PushSongs(s) => assert_eq!(s, strings(&["s.mp3"])),
        other => panic!("unexpected {:?}", other),
    }
    assert!(!a.playlist_popup);
    assert_eq!(a.append_list.index, 0);
    ch(&mut a, 'a');
    a.append_list.index = 2;
    match press(&mut a, KeyCode::Enter) {
        Action::AddToPlaylist(n, s) => {
            assert_eq!(n, "Chill");
            assert_eq!(s, strings(&["s.mp3"]));
        },
        other => panic!("unexpected {:?}", other),
    }
}

#[test]
fn append_from_empty_queue_just_closes() {
    let mut a = app();
    ch(&mut a, 'a');
    assert!(matches!(press(&mut a, KeyCode::Enter), Action::Nothing));
    assert!(!a.playlist_popup);
}

#[test]
fn append_browser_file_uses_library_path() {
    let mut a = app();
    a.update_library(strings(&["pop/one.mp3", "rock/two.mp3"]));
    browser_with(&mut a, "./rock", &[(EntryKind::File, "two.mp3"), (EntryKind::File, "gone.mp3")]);
    ch(&mut a, 'a');
    a.append_list.index = 1;
    match press(&mut a, KeyCode::Enter) {
        Action::PushSongs(s) => assert_eq!(s, strings(&["rock/two.mp3"])),
        other => panic!("unexpected {:?}", other),
    }
    a.browser.selected = 1;
    ch(&mut a, 'a');
    a.append_list.index = 1;
    assert!(matches!(press(&mut a, KeyCode::Enter), Action::Nothing));
}

#[test]
fn append_browser_directory_collects_listing() {
    let mut a = app();
    a.update_library(strings(&["rock/a.mp3", "rock/b.flac"]));
    browser_with(&mut a, ".", &[(EntryKind::Directory, "rock")]);
    ch(&mut a, 'a');
    a.append_list.index = 0;
    let target = match press(&mut a, KeyCode::Enter) {
        Action::CollectDirectory(dir, t) => {
            assert_eq!(dir, "./rock");
            t
        },
        other => panic!("unexpected {:?}", other),
    };
    assert!(matches!(target, AppendTarget::NewPlaylist));
    let listing = vec![
        (EntryKind::File, "a.mp3".to_string()),
        (EntryKind::File, "cover.jpg".to_string()),
        (EntryKind::Directory, "live".to_string()),
        (EntryKind::File, "b.flac".to_string()),
        (EntryKind::File, "unknown.mp3".to_string()),
    ];
    assert!(matches!(a.append_listing(target, listing), Action::Nothing));
    assert_eq!(a.inputmode, InputMode::NewPlaylist);
    assert_eq!(a.pl_new_pl_songs_buffer, strings(&["rock/a.mp3", "rock/b.flac"]));
}

#[test]
fn append_playlist_to_targets() {
    let mut a = app();
    a.update_playlists(strings(&["Chill", "Party"]));
    a.selected_tab = SelectedTab::Playlists;
    ch(&mut a, 'a');
    a.append_list.index = 1;
    match press(&mut a, KeyCode::Enter) {
        Action::LoadPlaylist(n) => assert_eq!(n, "Chill"),
        other => panic!("unexpected {:?}", other),
    }
    ch(&mut a, 'a');
    a.append_list.index = 3;
    match press(&mut a, KeyCode::Enter) {
        Action::CopyPlaylist(from, to) => {
            assert_eq!(from, "Chill");
            assert_eq!(to, "Party");
        },
        other => panic!("unexpected {:?}", other),
    }
}

#[test]
fn new_playlist_escape_drops_pending_songs() {
    let mut a = app();
    a.inputmode = InputMode::NewPlaylist;
    a.pl_new_pl_songs_buffer = strings(&["a.mp3"]);
    ch(&mut a, 'x');
    assert!(matches!(press(&mut a, KeyCode::Esc), Action::Nothing));
    assert!(a.pl_new_pl_songs_buffer.is_empty());
    assert_eq!(a.pl_new_pl_input.input, "");
    assert_eq!(a.inputmode, InputMode::Normal);
}

#[test]
fn mouse_scroll_moves_selection() {
    let mut a = app();
    a.update_queue(queue_of(&["a", "b"]));
    handle_mouse_events(MouseAction::ScrollDown, &mut a);
    assert_eq!(a.queue_list.index, 1);
    handle_mouse_events(MouseAction::ScrollDown, &mut a);
    assert_eq!(a.queue_list.index, 1);
    handle_mouse_events(MouseAction::ScrollUp, &mut a);
    assert_eq!(a.queue_list.index, 0);
    handle_mouse_events(MouseAction::Other, &mut a);
    assert_eq!(a.queue_list.index, 0);
}

#[test]
fn refresh_clamps_selection() {
    let mut a = app();
    a.update_queue(queue_of(&["a", "b", "c"]));
    a.queue_list.index = 2;
    a.update_queue(queue_of(&["a"]));
    assert_eq!(a.queue_list.index, 0);
    a.update_playlists(strings(&["x", "y"]));
    assert_eq!(a.append_list.list, strings(&["New Playlist", "Current Playlist", "x", "y"]));
}

#[test]
fn text_edits_follow_input_mode() {
    let mut a = app();
    a.enter_char('x');
    assert_eq!(a.search_input.input, "");
    a.inputmode = InputMode::PlaylistRename;
    a.enter_char('a');
    a.enter_char('b');
    assert_eq!(a.pl_newname_input.input, "ab");
    assert_eq!(a.clamp_cursor(7), 2);
    a.reset_cursor();
    assert_eq!(a.pl_newname_input.cursor, 0);
    a.inputmode = InputMode::Normal;
    assert_eq!(a.clamp_cursor(7), 0);
}
