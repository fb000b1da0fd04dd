use vstd::prelude::*;
use crate::app::{
    App, AppView, Action, ActionView, AppendTarget, TargetView, InputMode, SelectedTab, KeyCode,
    KeyPress, VolumeStatus, tab_labels, select_in_tab, queue_files, next_tab, target_of,
    full_path_spec, positions_view, current_playlist_label, new_playlist_label,
};
use crate::browser::{EntryKind, BrowserView, enter_spec, go_back_spec};
use crate::list::{next_index, prev_index};
use crate::paths::{join, join_spec, last_component, last_component_spec, library_path, library_path_spec, same_text};
use crate::search::{texts_view, best_match, best_match_spec};
use crate::text::{TextView, empty_text, insert_spec, delete_spec, left_spec, right_spec};

verus! {

// ----- text input -----

/// The buffer that the input mode edits.
pub open spec fn active_text(s: AppView) -> TextView {
    match s.mode {
        InputMode::PlaylistRename => s.rename,
        InputMode::NewPlaylist => s.new_name,
        _ => s.search,
    }
}

/// The state with the buffer of the input mode replaced; in Normal mode
/// there is none and nothing changes.
pub open spec fn with_active_text(s: AppView, t: TextView) -> AppView {
    match s.mode {
        InputMode::Editing => AppView { search: t, ..s },
        InputMode::PlaylistRename => AppView { rename: t, ..s },
        InputMode::NewPlaylist => AppView { new_name: t, ..s },
        InputMode::Normal => s,
    }
}

/// A key that edits the active buffer: a character is inserted, Backspace
/// deletes, Left and Right move the cursor; other keys change nothing.
pub open spec fn edit_step(s: AppView, code: KeyCode) -> AppView {
    match code {
        KeyCode::Char(c) => with_active_text(s, insert_spec(active_text(s), c)),
        KeyCode::Backspace => with_active_text(s, delete_spec(active_text(s))),
        KeyCode::Left => with_active_text(s, left_spec(active_text(s))),
        KeyCode::Right => with_active_text(s, right_spec(active_text(s))),
        _ => s,
    }
}

// ----- search -----

/// The active tab's selection moved onto the best match of the search text;
/// where several labels equal the best candidate, onto the first of them.
pub open spec fn search_jump(s: AppView) -> AppView {
    match best_match_spec(s.search.text, tab_labels(s)) {
        Some(i) => select_in_tab(s, i),
        None => s,
    }
}

/// A key while the search input is open: the selection follows the search
/// text; Esc and Enter close the input and clear it.
pub open spec fn search_step(s: AppView, k: KeyPress) -> (AppView, ActionView) {
    let j = search_jump(s);
    match k.code {
        KeyCode::Esc | KeyCode::Enter => (
            AppView { mode: InputMode::Normal, search: empty_text(), ..j },
            ActionView::Nothing,
        ),
        _ => (edit_step(j, k.code), ActionView::Nothing),
    }
}

// ----- playlist rename and new playlist -----

/// A key while a playlist name is typed for a rename: Enter renames the
/// selected playlist, Esc gives up; both clear the input.
pub open spec fn rename_step(s: AppView, k: KeyPress) -> (AppView, ActionView) {
    let done = AppView { mode: InputMode::Normal, rename: empty_text(), ..s };
    match k.code {
        KeyCode::Esc => (done, ActionView::Nothing),
        KeyCode::Enter => if 0 <= s.playlist_index < s.playlists.len() {
            (done, ActionView::RenamePlaylist(s.playlists[s.playlist_index], s.rename.text))
        } else {
            (done, ActionView::Nothing)
        },
        _ => (edit_step(s, k.code), ActionView::Nothing),
    }
}

/// A key while the name of a new playlist is typed: Enter creates it with
/// the waiting songs, Esc drops them; both clear the input.
pub open spec fn new_playlist_step(s: AppView, k: KeyPress) -> (AppView, ActionView) {
    let done = AppView { mode: InputMode::Normal, new_name: empty_text(), pending: Seq::empty(), ..s };
    match k.code {
        KeyCode::Esc => (done, ActionView::Nothing),
        KeyCode::Enter => (done, ActionView::CreatePlaylist(s.new_name.text, s.pending)),
        _ => (edit_step(s, k.code), ActionView::Nothing),
    }
}


// ----- the append popup -----

/// Sends one song to the chosen target: the queue, the playlist about to be
/// named, or a playlist of that name.
pub open spec fn deliver(s: AppView, target: TargetView, song: Seq<char>) -> (AppView, ActionView) {
    match target {
        TargetView::CurrentPlaylist => (s, ActionView::PushSongs(seq![song])),
        TargetView::NewPlaylist => (
            AppView { pending: seq![song], mode: InputMode::NewPlaylist, ..s },
            ActionView::Nothing,
        ),
        TargetView::Named(n) => (s, ActionView::AddToPlaylist(n, seq![song])),
    }
}

/// Enter in the append popup: sends the selection of the active tab to the
/// highlighted target, then closes the popup.
pub open spec fn append_enter(s: AppView) -> (AppView, ActionView) {
    let closed = AppView { popup: false, target_index: 0, ..s };
    if !(0 <= s.target_index < s.targets.len()) {
        (closed, ActionView::Nothing)
    } else {
        let target = target_of(s.targets[s.target_index]);
        match s.tab {
            SelectedTab::Queue => if s.queue.len() == 0 {
                (AppView { popup: false, ..s }, ActionView::Nothing)
            } else if !(0 <= s.queue_index < s.queue.len()) {
                (closed, ActionView::Nothing)
            } else {
                deliver(closed, target, queue_files(s.queue)[s.queue_index])
            },
            SelectedTab::DirectoryBrowser => if !(0 <= s.browser.selected < s.browser.entries.len()) {
                (closed, ActionView::Nothing)
            } else {
                let e = s.browser.entries[s.browser.selected];
                match e.0 {
                    EntryKind::File => match full_path_spec(s.library, e.1) {
                        Some(p) => deliver(closed, target, p),
                        None => (closed, ActionView::Nothing),
                    },
                    EntryKind::Directory => (
                        AppView { pending: Seq::empty(), ..closed },
                        ActionView::CollectDirectory(join_spec(s.browser.path, e.1), target),
                    ),
                }
            },
            SelectedTab::Playlists => if !(0 <= s.playlist_index < s.playlists.len()) {
                (closed, ActionView::Nothing)
            } else {
                let pl = s.playlists[s.playlist_index];
                match target {
                    TargetView::CurrentPlaylist => (closed, ActionView::LoadPlaylist(pl)),
                    TargetView::NewPlaylist => (
                        AppView { mode: InputMode::NewPlaylist, pending: Seq::empty(), ..closed },
                        ActionView::Nothing,
                    ),
                    TargetView::Named(n) => (closed, ActionView::CopyPlaylist(pl, n)),
                }
            },
        }
    }
}

/// A key while the append popup is open.
pub open spec fn append_step(s: AppView, k: KeyPress) -> (AppView, ActionView) {
    match k.code {
        KeyCode::Char('q') | KeyCode::Esc => (AppView { popup: false, ..s }, ActionView::Nothing),
        KeyCode::Char('j') | KeyCode::Down => (
            AppView { target_index: next_index(s.targets.len() as int, s.target_index), ..s },
            ActionView::Nothing,
        ),
        KeyCode::Char('k') | KeyCode::Up => (
            AppView { target_index: prev_index(s.target_index), ..s },
            ActionView::Nothing,
        ),
        KeyCode::Enter => append_enter(s),
        _ => (s, ActionView::Nothing),
    }
}

/// The library paths of the audio files in a directory listing; files the
/// library does not know are left out.
pub open spec fn listed_songs(library: Seq<Seq<char>>, listing: Seq<(EntryKind, Seq<char>)>) -> Seq<Seq<char>>
    decreases listing.len(),
{
    if listing.len() == 0 {
        Seq::empty()
    } else {
        let rest = listed_songs(library, listing.drop_last());
        let e = listing.last();
        if e.0 == EntryKind::File && crate::utils::has_extension_spec(e.1, crate::utils::audio_extensions()) {
            match full_path_spec(library, e.1) {
                Some(p) => rest.push(p),
                None => rest,
            }
        } else {
            rest
        }
    }
}

/// The listing of a directory chosen in the append popup, sent to its target.
pub open spec fn append_listing_step(s: AppView, target: TargetView, listing: Seq<(EntryKind, Seq<char>)>) -> (AppView, ActionView) {
    let songs = listed_songs(s.library, listing);
    match target {
        TargetView::CurrentPlaylist => (s, ActionView::PushSongs(songs)),
        TargetView::NewPlaylist => (
            AppView { pending: songs, mode: if songs.len() > 0 { InputMode::NewPlaylist } else { s.mode }, ..s },
            ActionView::Nothing,
        ),
        TargetView::Named(n) => (s, ActionView::AddToPlaylist(n, songs)),
    }
}

// ----- Normal mode: global keys -----

/// The positions of the queue whose file (or, with `by_name`, whose last
/// path component) equals `key`, highest first.
pub open spec fn positions_desc(files: Seq<Seq<char>>, key: Seq<char>, by_name: bool) -> Seq<int>
    decreases files.len(),
{
    if files.len() == 0 {
        Seq::empty()
    } else {
        let rest = positions_desc(files.drop_last(), key, by_name);
        let f = if by_name { last_component_spec(files.last()) } else { files.last() };
        if f == key {
            seq![files.len() - 1] + rest
        } else {
            rest
        }
    }
}

/// The first position of the queue whose file has `name` as last component.
pub open spec fn first_position(files: Seq<Seq<char>>, name: Seq<char>) -> Option<int>
    decreases files.len(),
{
    if files.len() == 0 {
        None
    } else if last_component_spec(files[0]) == name {
        Some(0)
    } else {
        match first_position(files.drop_first(), name) {
            Some(i) => Some(i + 1),
            None => None,
        }
    }
}

/// Space: in the browser a directory is queued, a file is taken out of the
/// queue where it stands there and queued otherwise, and the selection
/// moves down; in the queue every copy of the selected song is removed.
pub open spec fn add_or_remove(s: AppView) -> (AppView, ActionView) {
    match s.tab {
        SelectedTab::DirectoryBrowser => if !(0 <= s.browser.selected < s.browser.entries.len()) {
            (s, ActionView::Nothing)
        } else {
            let b = s.browser;
            let e = b.entries[b.selected];
            let moved = AppView {
                browser: BrowserView {
                    selected: if b.selected != b.entries.len() - 1 { b.selected + 1 } else { b.selected },
                    ..b
                },
                ..s
            };
            match e.0 {
                EntryKind::Directory => (moved, ActionView::EnqueueDirectory(join_spec(b.path, e.1))),
                EntryKind::File => {
                    let ps = positions_desc(queue_files(s.queue), e.1, true);
                    if ps.len() > 0 {
                        (moved, ActionView::RemoveFromQueue(ps))
                    } else {
                        (moved, ActionView::PushSongs(seq![library_path_spec(join_spec(b.path, e.1))]))
                    }
                },
            }
        },
        SelectedTab::Queue => if !(0 <= s.queue_index < s.queue.len()) {
            (s, ActionView::Nothing)
        } else {
            let qi = s.queue_index;
            let ps = positions_desc(queue_files(s.queue), queue_files(s.queue)[qi], false);
            (
                AppView { queue_index: if qi == s.queue.len() - 1 && qi != 0 { qi - 1 } else { qi }, ..s },
                ActionView::RemoveFromQueue(ps),
            )
        },
        SelectedTab::Playlists => (s, ActionView::Nothing),
    }
}

/// Whether a key belongs to the global keymap in the state `s`.
pub open spec fn is_global_key(s: AppView, k: KeyPress) -> bool {
    match k.code {
        KeyCode::Char(c) => c == 'q' || c == 'c' || c == 'C' || c == 'p' || c == 's' || c == 'r'
            || c == 'z' || c == 'D' || c == 'a' || c == 'f' || c == 'b' || c == '1' || c == '2'
            || c == '3' || c == '>' || c == '<' || c == '=' || c == '+' || c == '-' || c == 'm'
            || c == 'U' || c == '/' || (c == ' ' && s.tab != SelectedTab::Playlists),
        KeyCode::Tab => true,
        _ => false,
    }
}

/// The volume two steps up, if that stays at most 100.
pub open spec fn volume_up(s: AppView) -> (AppView, ActionView) {
    if s.status.volume + 2 <= 100 {
        (AppView { volume_status: VolumeStatus::Unmuted, ..s }, ActionView::SetVolume((s.status.volume + 2) as i8))
    } else {
        (s, ActionView::Nothing)
    }
}

/// The volume two steps down, if that stays at least 0.
pub open spec fn volume_down(s: AppView) -> (AppView, ActionView) {
    if s.status.volume - 2 >= 0 {
        (AppView { volume_status: VolumeStatus::Unmuted, ..s }, ActionView::SetVolume((s.status.volume - 2) as i8))
    } else {
        (s, ActionView::Nothing)
    }
}

/// A key of the global keymap.
pub open spec fn global_step(s: AppView, k: KeyPress) -> (AppView, ActionView) {
    let nonempty = s.queue.len() > 0;
    match k.code {
        KeyCode::Tab => (AppView { tab: next_tab(s.tab), ..s }, ActionView::Nothing),
        KeyCode::Char(c) => if c == 'q' {
            (AppView { running: false, ..s }, ActionView::Nothing)
        } else if c == 'c' || c == 'C' {
            if k.control {
                (AppView { running: false, ..s }, ActionView::Nothing)
            } else {
                (s, ActionView::ClearQueue)
            }
        } else if c == 'p' {
            (s, ActionView::TogglePause)
        } else if c == 's' {
            (s, ActionView::Pause)
        } else if c == 'r' {
            (s, ActionView::SetRepeat(!s.status.repeat))
        } else if c == 'z' {
            (s, ActionView::SetRandom(!s.status.random))
        } else if c == 'D' {
            (s, ActionView::Dmenu)
        } else if c == 'a' {
            (AppView { popup: true, ..s }, ActionView::Nothing)
        } else if c == 'f' {
            (s, if nonempty { ActionView::SeekForward } else { ActionView::Nothing })
        } else if c == 'b' {
            (s, if nonempty { ActionView::SeekBackward } else { ActionView::Nothing })
        } else if c == '1' {
            (AppView { tab: SelectedTab::Queue, ..s }, ActionView::Nothing)
        } else if c == '2' {
            (AppView { tab: SelectedTab::DirectoryBrowser, ..s }, ActionView::Nothing)
        } else if c == '3' {
            (AppView { tab: SelectedTab::Playlists, ..s }, ActionView::Nothing)
        } else if c == '>' {
            (s, if nonempty { ActionView::NextSong } else { ActionView::Nothing })
        } else if c == '<' {
            (s, if nonempty { ActionView::PrevSong } else { ActionView::Nothing })
        } else if c == '=' || c == '+' {
            volume_up(s)
        } else if c == '-' {
            volume_down(s)
        } else if c == 'm' {
            match s.volume_status {
                VolumeStatus::Muted(v) => (AppView { volume_status: VolumeStatus::Unmuted, ..s }, ActionView::SetVolume(v)),
                VolumeStatus::Unmuted => (
                    AppView { volume_status: VolumeStatus::Muted(s.status.volume), ..s },
                    ActionView::SetVolume(0),
                ),
            }
        } else if c == 'U' {
            (AppView { rescan_pending: true, ..s }, ActionView::Rescan)
        } else if c == '/' {
            (AppView { mode: InputMode::Editing, ..s }, ActionView::Nothing)
        } else if c == ' ' {
            add_or_remove(s)
        } else {
            (s, ActionView::Nothing)
        },
        _ => (s, ActionView::Nothing),
    }
}

// ----- Normal mode: keys of each tab -----

/// The index after deleting the song at `i` of a queue of `len` songs: the
/// song above is selected when the last one goes.
pub open spec fn index_after_delete(i: int, len: int) -> int {
    if i >= len - 1 && i != 0 {
        i - 1
    } else {
        i
    }
}

pub open spec fn queue_step(s: AppView, k: KeyPress) -> (AppView, ActionView) {
    let len = s.queue.len() as int;
    let qi = s.queue_index;
    match k.code {
        KeyCode::Char('j') | KeyCode::Down => (AppView { queue_index: next_index(len, qi), ..s }, ActionView::Nothing),
        KeyCode::Char('k') | KeyCode::Up => (AppView { queue_index: prev_index(qi), ..s }, ActionView::Nothing),
        KeyCode::Enter | KeyCode::Char('l') | KeyCode::Right => (
            s,
            if qi < len { ActionView::SwitchTo(qi) } else { ActionView::Nothing },
        ),
        KeyCode::Char('d') => if len == 0 {
            (s, ActionView::Nothing)
        } else {
            let i = if qi >= len { len - 1 } else { qi };
            (AppView { queue_index: index_after_delete(i, len), ..s }, ActionView::Delete(i))
        },
        KeyCode::Char('J') => if qi + 1 >= len {
            (s, ActionView::Nothing)
        } else {
            (AppView { queue_index: qi + 1, ..s }, ActionView::Swap(qi, qi + 1))
        },
        KeyCode::Char('K') => if qi == 0 || qi >= len {
            (s, ActionView::Nothing)
        } else {
            (AppView { queue_index: qi - 1, ..s }, ActionView::Swap(qi, qi - 1))
        },
        KeyCode::Char('g') => (AppView { queue_index: 0, ..s }, ActionView::Nothing),
        KeyCode::Char('G') => (
            AppView { queue_index: if len == 0 { 0 } else { len - 1 }, ..s },
            ActionView::Nothing,
        ),
        _ => (s, ActionView::Nothing),
    }
}

/// Enter on a browser entry: a directory is entered; a file is played from
/// its place in the queue, or queued and played when it is not there.
pub open spec fn browser_enter(s: AppView) -> (AppView, ActionView) {
    let b = s.browser;
    if !(0 <= b.selected < b.entries.len()) {
        (s, ActionView::Nothing)
    } else {
        let e = b.entries[b.selected];
        match e.0 {
            EntryKind::Directory => {
                let nb = enter_spec(b, e.1);
                (AppView { browser: nb, ..s }, ActionView::ListDirectory(nb.path))
            },
            EntryKind::File => match first_position(queue_files(s.queue), e.1) {
                Some(i) => (s, ActionView::SwitchTo(i)),
                None => (s, ActionView::PlayFile(library_path_spec(join_spec(b.path, e.1)))),
            },
        }
    }
}

pub open spec fn browser_step(s: AppView, k: KeyPress) -> (AppView, ActionView) {
    let b = s.browser;
    let len = b.entries.len() as int;
    match k.code {
        KeyCode::Char('j') | KeyCode::Down => (
            AppView { browser: BrowserView { selected: next_index(len, b.selected), ..b }, ..s },
            ActionView::Nothing,
        ),
        KeyCode::Char('k') | KeyCode::Up => (
            AppView { browser: BrowserView { selected: prev_index(b.selected), ..b }, ..s },
            ActionView::Nothing,
        ),
        KeyCode::Enter | KeyCode::Char('l') | KeyCode::Right => browser_enter(s),
        KeyCode::Char('h') | KeyCode::Left => {
            let nb = go_back_spec(b);
            (AppView { browser: nb, ..s }, ActionView::ListDirectory(nb.path))
        },
        KeyCode::Char('g') => (AppView { browser: BrowserView { selected: 0, ..b }, ..s }, ActionView::Nothing),
        KeyCode::Char('G') => (
            AppView { browser: BrowserView { selected: if len == 0 { 0 } else { len - 1 }, ..b }, ..s },
            ActionView::Nothing,
        ),
        _ => (s, ActionView::Nothing),
    }
}

pub open spec fn playlists_step(s: AppView, k: KeyPress) -> (AppView, ActionView) {
    let len = s.playlists.len() as int;
    let pi = s.playlist_index;
    match k.code {
        KeyCode::Char('j') | KeyCode::Down => (AppView { playlist_index: next_index(len, pi), ..s }, ActionView::Nothing),
        KeyCode::Char('k') | KeyCode::Up => (AppView { playlist_index: prev_index(pi), ..s }, ActionView::Nothing),
        KeyCode::Char('g') => (AppView { playlist_index: 0, ..s }, ActionView::Nothing),
        KeyCode::Char('G') => (
            AppView { playlist_index: if len == 0 { 0 } else { len - 1 }, ..s },
            ActionView::Nothing,
        ),
        KeyCode::Char('R') => (AppView { mode: InputMode::PlaylistRename, ..s }, ActionView::Nothing),
        KeyCode::Enter | KeyCode::Char('l') | KeyCode::Right | KeyCode::Char(' ') => (
            s,
            if 0 <= pi < len { ActionView::LoadPlaylist(s.playlists[pi]) } else { ActionView::Nothing },
        ),
        _ => (s, ActionView::Nothing),
    }
}

/// A key of the active tab's keymap.
pub open spec fn tab_step(s: AppView, k: KeyPress) -> (AppView, ActionView) {
    match s.tab {
        SelectedTab::Queue => queue_step(s, k),
        SelectedTab::DirectoryBrowser => browser_step(s, k),
        SelectedTab::Playlists => playlists_step(s, k),
    }
}

// ----- dispatch -----

/// What one key does. The input modes come first, in the order Editing,
/// PlaylistRename, NewPlaylist; then the append popup; then the global
/// keymap; then the keymap of the active tab.
pub open spec fn key_step(s: AppView, k: KeyPress) -> (AppView, ActionView) {
    match s.mode {
        InputMode::Editing => search_step(s, k),
        InputMode::PlaylistRename => rename_step(s, k),
        InputMode::NewPlaylist => new_playlist_step(s, k),
        InputMode::Normal => if s.popup {
            append_step(s, k)
        } else if is_global_key(s, k) {
            global_step(s, k)
        } else {
            tab_step(s, k)
        },
    }
}

/// While the search input is open no entry of the global or tab keymaps
/// fires, whatever the key and whether or not the append popup is open: the
/// key only edits the search, moves the active tab's selection, and may
/// close the search; it sends nothing to the daemon.
pub proof fn lemma_editing_has_priority(s: AppView, k: KeyPress)
    requires
        s.mode == InputMode::Editing,
    ensures
        key_step(s, k) == search_step(s, k),
        key_step(s, k).1 == ActionView::Nothing,
        ({
            let t = key_step(s, k).0;
            &&& t.running == s.running
            &&& t.tab == s.tab
            &&& t.popup == s.popup
            &&& t.queue == s.queue
            &&& t.playlists == s.playlists
            &&& t.targets == s.targets
            &&& t.target_index == s.target_index
            &&& t.browser.entries == s.browser.entries
            &&& t.browser.path == s.browser.path
            &&& t.browser.prev_path == s.browser.prev_path
            &&& t.rename == s.rename
            &&& t.new_name == s.new_name
            &&& t.pending == s.pending
            &&& t.rescan_pending == s.rescan_pending
            &&& t.status == s.status
            &&& t.volume_status == s.volume_status
            &&& t.mode == InputMode::Editing || t.mode == InputMode::Normal
        }),
{
}


// ----- executable handlers -----

/// The append target that an entry of the popup names.
pub fn target_from_name(name: &String) -> (r: AppendTarget)
    ensures
        r@ == target_of(name@),
{
    let current = "Current Playlist";
    let new = "New Playlist";
    proof {
        reveal_strlit("Current Playlist");
        reveal_strlit("New Playlist");
    }
    assert(current@ =~= current_playlist_label());
    assert(new@ =~= new_playlist_label());
    if same_text(name.as_str(), current) {
        AppendTarget::CurrentPlaylist
    } else if same_text(name.as_str(), new) {
        AppendTarget::NewPlaylist
    } else {
        AppendTarget::Named(name.clone())
    }
}

/// A one-element list of texts.
fn single(s: String) -> (r: Vec<String>)
    ensures
        texts_view(r@) == seq![s@],
{
    let mut r: Vec<String> = Vec::new();
    r.push(s);
    assert(texts_view(r@) =~= seq![s@]);
    r
}

impl App {
    /// Inserts a character into the buffer of the input mode.
    pub fn enter_char(&mut self, c: char)
        ensures
            final(self)@ == edit_step(old(self)@, KeyCode::Char(c)),
    {
        match self.inputmode {
            InputMode::Editing => self.search_input.enter_char(c),
            InputMode::PlaylistRename => self.pl_newname_input.enter_char(c),
            InputMode::NewPlaylist => self.pl_new_pl_input.enter_char(c),
            InputMode::Normal => {},
        }
    }

    /// Deletes the character before the cursor in the buffer of the input mode.
    pub fn delete_char(&mut self)
        ensures
            final(self)@ == edit_step(old(self)@, KeyCode::Backspace),
    {
        match self.inputmode {
            InputMode::Editing => self.search_input.delete_char(),
            InputMode::PlaylistRename => self.pl_newname_input.delete_char(),
            InputMode::NewPlaylist => self.pl_new_pl_input.delete_char(),
            InputMode::Normal => {},
        }
    }

    pub fn move_cursor_left(&mut self)
        ensures
            final(self)@ == edit_step(old(self)@, KeyCode::Left),
    {
        match self.inputmode {
            InputMode::Editing => self.search_input.move_cursor_left(),
            InputMode::PlaylistRename => self.pl_newname_input.move_cursor_left(),
            InputMode::NewPlaylist => self.pl_new_pl_input.move_cursor_left(),
            InputMode::Normal => {},
        }
    }

    pub fn move_cursor_right(&mut self)
        ensures
            final(self)@ == edit_step(old(self)@, KeyCode::Right),
    {
        match self.inputmode {
            InputMode::Editing => self.search_input.move_cursor_right(),
            InputMode::PlaylistRename => self.pl_newname_input.move_cursor_right(),
            InputMode::NewPlaylist => self.pl_new_pl_input.move_cursor_right(),
            InputMode::Normal => {},
        }
    }

    /// Puts the cursor of the input mode's buffer at its start.
    pub fn reset_cursor(&mut self)
        ensures
            final(self)@ == with_active_text(
                old(self)@,
                TextView { text: active_text(old(self)@).text, cursor: 0 },
            ),
    {
        match self.inputmode {
            InputMode::Editing => self.search_input.reset_cursor(),
            InputMode::PlaylistRename => self.pl_newname_input.reset_cursor(),
            InputMode::NewPlaylist => self.pl_new_pl_input.reset_cursor(),
            InputMode::Normal => {},
        }
    }

    /// A cursor position clamped onto the input mode's buffer, counted in
    /// characters; 0 in Normal mode.
    pub fn clamp_cursor(&self, new_cursor_pos: usize) -> (r: usize)
        ensures
            self@.mode == InputMode::Normal ==> r == 0,
            self@.mode != InputMode::Normal ==> r == if new_cursor_pos <= active_text(self@).text.len() {
                new_cursor_pos as int
            } else {
                active_text(self@).text.len() as int
            },
    {
        let len = match self.inputmode {
            InputMode::Editing => self.search_input.input.as_str().unicode_len(),
            InputMode::PlaylistRename => self.pl_newname_input.input.as_str().unicode_len(),
            InputMode::NewPlaylist => self.pl_new_pl_input.input.as_str().unicode_len(),
            InputMode::Normal => 0,
        };
        if new_cursor_pos <= len {
            new_cursor_pos
        } else {
            len
        }
    }

    fn edit(&mut self, code: KeyCode)
        ensures
            final(self)@ == edit_step(old(self)@, code),
    {
        match code {
            KeyCode::Char(c) => self.enter_char(c),
            KeyCode::Backspace => self.delete_char(),
            KeyCode::Left => self.move_cursor_left(),
            KeyCode::Right => self.move_cursor_right(),
            _ => {},
        }
    }

    /// Moves the active tab's selection onto the best match of the search text.
    pub fn search_jump(&mut self)
        ensures
            final(self)@ == search_jump(old(self)@),
    {
        let labels = self.tab_labels();
        match best_match(self.search_input.input.as_str(), &labels) {
            Some(i) => match self.selected_tab {
                SelectedTab::DirectoryBrowser => self.browser.selected = i,
                SelectedTab::Queue => self.queue_list.index = i,
                SelectedTab::Playlists => self.pl_list.index = i,
            },
            None => {},
        }
    }




    fn deliver(&mut self, target: AppendTarget, song: String) -> (r: Action)
        ensures
            (final(self)@, r@) == deliver(old(self)@, target@, song@),
    {
        match target {
            AppendTarget::CurrentPlaylist => Action::PushSongs(single(song)),
            AppendTarget::NewPlaylist => {
                self.pl_new_pl_songs_buffer = single(song);
                self.inputmode = InputMode::NewPlaylist;
                Action::Nothing
            },
            AppendTarget::Named(n) => Action::AddToPlaylist(n, single(song)),
        }
    }

    fn close_popup(&mut self)
        ensures
            final(self)@ == (AppView { popup: false, target_index: 0, ..old(self)@ }),
    {
        self.playlist_popup = false;
        self.append_list.index = 0;
    }

    fn append_enter(&mut self) -> (r: Action)
        ensures
            (final(self)@, r@) == append_enter(old(self)@),
    {
        let target = match self.append_list.current() {
            Some(name) => target_from_name(name),
            None => {
                self.close_popup();
                return Action::Nothing;
            },
        };
        match self.selected_tab {
            SelectedTab::Queue => {
                if self.queue_list.list.len() == 0 {
                    self.playlist_popup = false;
                    return Action::Nothing;
                }
                let song = match self.queue_list.current() {
                    Some(song) => song.file.clone(),
                    None => {
                        self.close_popup();
                        return Action::Nothing;
                    },
                };
                self.close_popup();
                self.deliver(target, song)
            },
            SelectedTab::DirectoryBrowser => {
                let (kind, name) = match self.browser.selected_entry() {
                    Some(e) => (e.0, e.1.clone()),
                    None => {
                        self.close_popup();
                        return Action::Nothing;
                    },
                };
                match kind {
                    EntryKind::File => {
                        let full = self.get_full_path(name.as_str());
                        self.close_popup();
                        match full {
                            Some(p) => self.deliver(target, p),
                            None => Action::Nothing,
                        }
                    },
                    EntryKind::Directory => {
                        let dir = join(self.browser.path.as_str(), name.as_str());
                        self.close_popup();
                        self.pl_new_pl_songs_buffer = Vec::new();
                        assert(self@.pending =~= Seq::<Seq<char>>::empty());
                        Action::CollectDirectory(dir, target)
                    },
                }
            },
            SelectedTab::Playlists => {
                let pl = match self.pl_list.current() {
                    Some(pl) => pl.clone(),
                    None => {
                        self.close_popup();
                        return Action::Nothing;
                    },
                };
                self.close_popup();
                match target {
                    AppendTarget::CurrentPlaylist => Action::LoadPlaylist(pl),
                    AppendTarget::NewPlaylist => {
                        self.inputmode = InputMode::NewPlaylist;
                        self.pl_new_pl_songs_buffer = Vec::new();
                        assert(self@.pending =~= Seq::<Seq<char>>::empty());
                        Action::Nothing
                    },
                    AppendTarget::Named(n) => Action::CopyPlaylist(pl, n),
                }
            },
        }
    }

}

impl App {
    /// The library paths of the audio files in a listing.
    fn listed_songs(&self, listing: &Vec<(EntryKind, String)>) -> (r: Vec<String>)
        ensures
            texts_view(r@) == listed_songs(self@.library, crate::browser::entries_view(listing@)),
    {
        let ghost lv = crate::browser::entries_view(listing@);
        let mut r: Vec<String> = Vec::new();
        let mut i: usize = 0;
        assert(lv.subrange(0, 0) =~= Seq::<(EntryKind, Seq<char>)>::empty());
        while i < listing.len()
            invariant
                i <= listing@.len(),
                lv == crate::browser::entries_view(listing@),
                texts_view(r@) == listed_songs(self@.library, lv.subrange(0, i as int)),
            decreases listing@.len() - i,
        {
            let ghost sub = lv.subrange(0, i + 1);
            assert(sub.drop_last() =~= lv.subrange(0, i as int));
            assert(sub.last() == (listing@[i as int].0, listing@[i as int].1@));
            let kind = listing[i].0;
            if kind == EntryKind::File && crate::utils::is_audio_file(listing[i].1.as_str()) {
                match self.get_full_path(listing[i].1.as_str()) {
                    Some(p) => {
                        r.push(p);
                        assert(texts_view(r@) =~= listed_songs(self@.library, sub));
                    },
                    None => {},
                }
            }
            i = i + 1;
        }
        assert(lv.subrange(0, listing@.len() as int) =~= lv);
        r
    }

    /// Sends the audio files of a directory listing, fetched after
    /// [`Action::CollectDirectory`], to the target it named.
    pub fn append_listing(&mut self, target: AppendTarget, listing: Vec<(EntryKind, String)>) -> (r: Action)
        ensures
            (final(self)@, r@) == append_listing_step(old(self)@, target@, crate::browser::entries_view(listing@)),
    {
        let songs = self.listed_songs(&listing);
        match target {
            AppendTarget::CurrentPlaylist => Action::PushSongs(songs),
            AppendTarget::NewPlaylist => {
                if songs.len() > 0 {
                    self.inputmode = InputMode::NewPlaylist;
                }
                self.pl_new_pl_songs_buffer = songs;
                Action::Nothing
            },
            AppendTarget::Named(n) => Action::AddToPlaylist(n, songs),
        }
    }

    /// The queue positions whose file (or, with `by_name`, whose last path
    /// component) equals `key`, highest first.
    pub fn queue_positions(&self, key: &str, by_name: bool) -> (r: Vec<usize>)
        ensures
            positions_view(r@) == positions_desc(queue_files(self@.queue), key@, by_name),
    {
        let ghost files = queue_files(self@.queue);
        let mut r: Vec<usize> = Vec::new();
        let mut i: usize = self.queue_list.list.len();
        assert(files.subrange(0, i as int) =~= files);
        assert(positions_view(r@) =~= Seq::<int>::empty());
        while i > 0
            invariant
                i <= self.queue_list.list@.len(),
                files == queue_files(self@.queue),
                positions_desc(files, key@, by_name) == positions_view(r@) + positions_desc(
                    files.subrange(0, i as int),
                    key@,
                    by_name,
                ),
            decreases i,
        {
            let ghost sub = files.subrange(0, i as int);
            assert(sub.drop_last() =~= files.subrange(0, i - 1));
            assert(sub.last() == self.queue_list.list@[i - 1].file@);
            let file = &self.queue_list.list[i - 1].file;
            let hit = if by_name {
                let name = last_component(file.as_str());
                same_text(name.as_str(), key)
            } else {
                same_text(file.as_str(), key)
            };
            let ghost before = positions_view(r@);
            if hit {
                r.push(i - 1);
                assert(positions_view(r@) =~= before.push(i - 1));
                assert(before.push(i - 1) + positions_desc(files.subrange(0, i - 1), key@, by_name)
                    =~= before + (seq![i - 1] + positions_desc(files.subrange(0, i - 1), key@, by_name)));
            }
            i = i - 1;
        }
        assert(files.subrange(0, 0) =~= Seq::<Seq<char>>::empty());
        assert(positions_view(r@) + Seq::<int>::empty() =~= positions_view(r@));
        r
    }

    /// The first queue position whose file has `name` as last path component.
    pub fn queue_position_of(&self, name: &str) -> (r: Option<usize>)
        ensures
            r matches Some(i) ==> first_position(queue_files(self@.queue), name@) == Some(i as int),
            r is None ==> first_position(queue_files(self@.queue), name@) is None,
    {
        let ghost files = queue_files(self@.queue);
        let mut i: usize = 0;
        assert(files.subrange(0, files.len() as int) =~= files);
        while i < self.queue_list.list.len()
            invariant
                i <= self.queue_list.list@.len(),
                files == queue_files(self@.queue),
                first_position(files, name@) == (match first_position(
                    files.subrange(i as int, files.len() as int),
                    name@,
                ) {
                    Some(k) => Some(k + i),
                    None => None,
                }),
            decreases self.queue_list.list@.len() - i,
        {
            let ghost sub = files.subrange(i as int, files.len() as int);
            assert(sub.drop_first() =~= files.subrange(i + 1, files.len() as int));
            assert(sub[0] == self.queue_list.list@[i as int].file@);
            let last = last_component(self.queue_list.list[i].file.as_str());
            if same_text(last.as_str(), name) {
                return Some(i);
            }
            i = i + 1;
        }
        None
    }

    /// Space in the Normal mode: see [`add_or_remove`].
    pub fn handle_add_or_remove_from_current_playlist(&mut self) -> (r: Action)
        ensures
            (final(self)@, r@) == add_or_remove(old(self)@),
    {
        match self.selected_tab {
            SelectedTab::DirectoryBrowser => {
                let (kind, name) = match self.browser.selected_entry() {
                    Some(e) => (e.0, e.1.clone()),
                    None => return Action::Nothing,
                };
                let r = match kind {
                    EntryKind::Directory => Action::EnqueueDirectory(join(self.browser.path.as_str(), name.as_str())),
                    EntryKind::File => {
                        let ps = self.queue_positions(name.as_str(), true);
                        if ps.len() > 0 {
                            Action::RemoveFromQueue(ps)
                        } else {
                            let full = join(self.browser.path.as_str(), name.as_str());
                            Action::PushSongs(single(library_path(full.as_str())))
                        }
                    },
                };
                if self.browser.selected != self.browser.filetree.len() - 1 {
                    self.browser.selected = self.browser.selected + 1;
                }
                r
            },
            SelectedTab::Queue => {
                let file = match self.queue_list.current() {
                    Some(song) => song.file.clone(),
                    None => return Action::Nothing,
                };
                let ps = self.queue_positions(file.as_str(), false);
                let len = self.queue_list.list.len();
                if self.queue_list.index == len - 1 && self.queue_list.index != 0 {
                    self.queue_list.index = self.queue_list.index - 1;
                }
                Action::RemoveFromQueue(ps)
            },
            SelectedTab::Playlists => Action::Nothing,
        }
    }
}

impl App {
    fn handle_global_keys(&mut self, key: KeyPress) -> (r: Action)
        ensures
            (final(self)@, r@) == global_step(old(self)@, key),
    {
        let nonempty = self.queue_list.list.len() > 0;
        match key.code {
            KeyCode::Tab => {
                self.cycle_tabls();
                Action::Nothing
            },
            KeyCode::Char('q') => {
                self.quit();
                Action::Nothing
            },
            KeyCode::Char('c') | KeyCode::Char('C') => {
                if key.control {
                    self.quit();
                    Action::Nothing
                } else {
                    Action::ClearQueue
                }
            },
            KeyCode::Char('p') => Action::TogglePause,
            KeyCode::Char('s') => Action::Pause,
            KeyCode::Char('r') => Action::SetRepeat(!self.status.repeat),
            KeyCode::Char('z') => Action::SetRandom(!self.status.random),
            KeyCode::Char('D') => Action::Dmenu,
            KeyCode::Char('a') => {
                self.playlist_popup = true;
                Action::Nothing
            },
            KeyCode::Char('f') => if nonempty {
                Action::SeekForward
            } else {
                Action::Nothing
            },
            KeyCode::Char('b') => if nonempty {
                Action::SeekBackward
            } else {
                Action::Nothing
            },
            KeyCode::Char('1') => {
                self.selected_tab = SelectedTab::Queue;
                Action::Nothing
            },
            KeyCode::Char('2') => {
                self.selected_tab = SelectedTab::DirectoryBrowser;
                Action::Nothing
            },
            KeyCode::Char('3') => {
                self.selected_tab = SelectedTab::Playlists;
                Action::Nothing
            },
            KeyCode::Char('>') => if nonempty {
                Action::NextSong
            } else {
                Action::Nothing
            },
            KeyCode::Char('<') => if nonempty {
                Action::PrevSong
            } else {
                Action::Nothing
            },
            KeyCode::Char('=') | KeyCode::Char('+') => {
                let v: i16 = self.status.volume as i16 + 2;
                if v <= 100 {
                    self.volume_status = VolumeStatus::Unmuted;
                    Action::SetVolume(v as i8)
                } else {
                    Action::Nothing
                }
            },
            KeyCode::Char('-') => {
                let v: i16 = self.status.volume as i16 - 2;
                if v >= 0 {
                    self.volume_status = VolumeStatus::Unmuted;
                    Action::SetVolume(v as i8)
                } else {
                    Action::Nothing
                }
            },
            KeyCode::Char('m') => match self.volume_status {
                VolumeStatus::Muted(v) => {
                    self.volume_status = VolumeStatus::Unmuted;
                    Action::SetVolume(v)
                },
                VolumeStatus::Unmuted => {
                    self.volume_status = VolumeStatus::Muted(self.status.volume);
                    Action::SetVolume(0)
                },
            },
            KeyCode::Char('U') => {
                self.should_update_song_list = true;
                Action::Rescan
            },
            KeyCode::Char('/') => {
                self.inputmode = InputMode::Editing;
                Action::Nothing
            },
            KeyCode::Char(' ') => self.handle_add_or_remove_from_current_playlist(),
            _ => Action::Nothing,
        }
    }

    fn handle_queue_keys(&mut self, key: KeyPress) -> (r: Action)
        ensures
            (final(self)@, r@) == queue_step(old(self)@, key),
    {
        let len = self.queue_list.list.len();
        let qi = self.queue_list.index;
        match key.code {
            KeyCode::Char('j') | KeyCode::Down => {
                self.queue_list.next();
                Action::Nothing
            },
            KeyCode::Char('k') | KeyCode::Up => {
                self.queue_list.prev();
                Action::Nothing
            },
            KeyCode::Enter | KeyCode::Char('l') | KeyCode::Right => if qi < len {
                Action::SwitchTo(qi)
            } else {
                Action::Nothing
            },
            KeyCode::Char('d') => {
                if len == 0 {
                    Action::Nothing
                } else {
                    let i = if qi >= len { len - 1 } else { qi };
                    self.queue_list.index = if i >= len - 1 && i != 0 { i - 1 } else { i };
                    Action::Delete(i)
                }
            },
            KeyCode::Char('J') => {
                if len == 0 || qi >= len - 1 {
                    Action::Nothing
                } else {
                    self.queue_list.index = qi + 1;
                    Action::Swap(qi, qi + 1)
                }
            },
            KeyCode::Char('K') => {
                if qi == 0 || qi >= len {
                    Action::Nothing
                } else {
                    self.queue_list.index = qi - 1;
                    Action::Swap(qi, qi - 1)
                }
            },
            KeyCode::Char('g') => {
                self.queue_list.select_first();
                Action::Nothing
            },
            KeyCode::Char('G') => {
                self.queue_list.select_last();
                Action::Nothing
            },
            _ => Action::Nothing,
        }
    }

    /// Enter on the selected browser entry: see [`browser_enter`].
    pub fn handle_enter(&mut self) -> (r: Action)
        ensures
            (final(self)@, r@) == browser_enter(old(self)@),
    {
        let (kind, name) = match self.browser.selected_entry() {
            Some(e) => (e.0, e.1.clone()),
            None => return Action::Nothing,
        };
        match kind {
            EntryKind::Directory => {
                self.browser.enter_directory(name.as_str());
                Action::ListDirectory(self.browser.path.clone())
            },
            EntryKind::File => match self.queue_position_of(name.as_str()) {
                Some(i) => Action::SwitchTo(i),
                None => {
                    let full = join(self.browser.path.as_str(), name.as_str());
                    Action::PlayFile(library_path(full.as_str()))
                },
            },
        }
    }

    fn handle_browser_keys(&mut self, key: KeyPress) -> (r: Action)
        ensures
            (final(self)@, r@) == browser_step(old(self)@, key),
    {
        match key.code {
            KeyCode::Char('j') | KeyCode::Down => {
                self.browser.next();
                Action::Nothing
            },
            KeyCode::Char('k') | KeyCode::Up => {
                self.browser.prev();
                Action::Nothing
            },
            KeyCode::Enter | KeyCode::Char('l') | KeyCode::Right => self.handle_enter(),
            KeyCode::Char('h') | KeyCode::Left => {
                self.browser.handle_go_back();
                Action::ListDirectory(self.browser.path.clone())
            },
            KeyCode::Char('g') => {
                self.browser.select_first();
                Action::Nothing
            },
            KeyCode::Char('G') => {
                self.browser.select_last();
                Action::Nothing
            },
            _ => Action::Nothing,
        }
    }

    fn handle_playlist_keys(&mut self, key: KeyPress) -> (r: Action)
        ensures
            (final(self)@, r@) == playlists_step(old(self)@, key),
    {
        match key.code {
            KeyCode::Char('j') | KeyCode::Down => {
                self.pl_list.next();
                Action::Nothing
            },
            KeyCode::Char('k') | KeyCode::Up => {
                self.pl_list.prev();
                Action::Nothing
            },
            KeyCode::Char('g') => {
                self.pl_list.select_first();
                Action::Nothing
            },
            KeyCode::Char('G') => {
                self.pl_list.select_last();
                Action::Nothing
            },
            KeyCode::Char('R') => {
                self.inputmode = InputMode::PlaylistRename;
                Action::Nothing
            },
            KeyCode::Enter | KeyCode::Char('l') | KeyCode::Right | KeyCode::Char(' ') => {
                match self.pl_list.current() {
                    Some(name) => Action::LoadPlaylist(name.clone()),
                    None => Action::Nothing,
                }
            },
            _ => Action::Nothing,
        }
    }

    fn is_global_key(&self, key: KeyPress) -> (r: bool)
        ensures
            r == is_global_key(self@, key),
    {
        match key.code {
            KeyCode::Char(c) => c == 'q' || c == 'c' || c == 'C' || c == 'p' || c == 's' || c == 'r'
                || c == 'z' || c == 'D' || c == 'a' || c == 'f' || c == 'b' || c == '1' || c == '2'
                || c == '3' || c == '>' || c == '<' || c == '=' || c == '+' || c == '-' || c == 'm'
                || c == 'U' || c == '/' || (c == ' ' && self.selected_tab != SelectedTab::Playlists),
            KeyCode::Tab => true,
            _ => false,
        }
    }
}

/// A key while the search input is open. The active tab's selection first
/// moves onto the fuzzy matcher's best candidate for the search text (the
/// first of several equal labels).
pub fn handle_search_keys(key_event: KeyPress, app: &mut App) -> (r: Action)
    ensures
        (final(app)@, r@) == search_step(old(app)@, key_event),
{
    app.search_jump();
    match key_event.code {
        KeyCode::Esc | KeyCode::Enter => {
            app.search_input.clear();
            app.inputmode = InputMode::Normal;
        },
        _ => app.edit(key_event.code),
    }
    Action::Nothing
}

/// A key while a new name for the selected playlist is typed.
pub fn handle_pl_rename_keys(key_event: KeyPress, app: &mut App) -> (r: Action)
    ensures
        (final(app)@, r@) == rename_step(old(app)@, key_event),
{
    match key_event.code {
        KeyCode::Esc => {
            app.pl_newname_input.clear();
            app.inputmode = InputMode::Normal;
            Action::Nothing
        },
        KeyCode::Enter => {
            let r = match app.pl_list.current() {
                Some(name) => Action::RenamePlaylist(name.clone(), app.pl_newname_input.input.clone()),
                None => Action::Nothing,
            };
            app.pl_newname_input.clear();
            app.inputmode = InputMode::Normal;
            r
        },
        _ => {
            app.edit(key_event.code);
            Action::Nothing
        },
    }
}

/// A key while the name of a new playlist is typed.
pub fn handle_new_pl_keys(key_event: KeyPress, app: &mut App) -> (r: Action)
    ensures
        (final(app)@, r@) == new_playlist_step(old(app)@, key_event),
{
    match key_event.code {
        KeyCode::Esc => {
            app.pl_new_pl_input.clear();
            app.pl_new_pl_songs_buffer = Vec::new();
            app.inputmode = InputMode::Normal;
            assert(app@.pending =~= Seq::<Seq<char>>::empty());
            Action::Nothing
        },
        KeyCode::Enter => {
            let name = app.pl_new_pl_input.input.clone();
            let mut songs: Vec<String> = Vec::new();
            std::mem::swap(&mut songs, &mut app.pl_new_pl_songs_buffer);
            app.pl_new_pl_input.clear();
            app.inputmode = InputMode::Normal;
            assert(app@.pending =~= Seq::<Seq<char>>::empty());
            Action::CreatePlaylist(name, songs)
        },
        _ => {
            app.edit(key_event.code);
            Action::Nothing
        },
    }
}

/// A key while the append popup is open.
pub fn hande_pl_append_keys(key_event: KeyPress, app: &mut App) -> (r: Action)
    ensures
        (final(app)@, r@) == append_step(old(app)@, key_event),
{
    match key_event.code {
        KeyCode::Char('q') | KeyCode::Esc => {
            app.playlist_popup = false;
            Action::Nothing
        },
        KeyCode::Char('j') | KeyCode::Down => {
            app.append_list.next();
            Action::Nothing
        },
        KeyCode::Char('k') | KeyCode::Up => {
            app.append_list.prev();
            Action::Nothing
        },
        KeyCode::Enter => app.append_enter(),
        _ => Action::Nothing,
    }
}

/// Handles one key press: changes the state as [`key_step`] says and
/// returns the command for the daemon, if any, for the caller to perform.
pub fn handle_key_events(key_event: KeyPress, app: &mut App) -> (r: Action)
    ensures
        (final(app)@, r@) == key_step(old(app)@, key_event),
{
    match app.inputmode {
        InputMode::Editing => handle_search_keys(key_event, app),
        InputMode::PlaylistRename => handle_pl_rename_keys(key_event, app),
        InputMode::NewPlaylist => handle_new_pl_keys(key_event, app),
        InputMode::Normal => {
            if app.playlist_popup {
                hande_pl_append_keys(key_event, app)
            } else if app.is_global_key(key_event) {
                app.handle_global_keys(key_event)
            } else {
                match app.selected_tab {
                    SelectedTab::Queue => app.handle_queue_keys(key_event),
                    SelectedTab::DirectoryBrowser => app.handle_browser_keys(key_event),
                    SelectedTab::Playlists => app.handle_playlist_keys(key_event),
                }
            }
        },
    }
}

// ----- mouse -----

/// A mouse event as the dispatcher sees it.
#[derive(Debug, Clone, Copy, PartialEq, Eq, Structural)]
pub enum MouseAction {
    ScrollUp,
    ScrollDown,
    Other,
}

/// The active tab's selection one step up (`up`) or down.
pub open spec fn scroll_step(s: AppView, up: bool) -> AppView {
    match s.tab {
        SelectedTab::Queue => AppView {
            queue_index: if up { prev_index(s.queue_index) } else { next_index(s.queue.len() as int, s.queue_index) },
            ..s
        },
        SelectedTab::DirectoryBrowser => AppView {
            browser: BrowserView {
                selected: if up {
                    prev_index(s.browser.selected)
                } else {
                    next_index(s.browser.entries.len() as int, s.browser.selected)
                },
                ..s.browser
            },
            ..s
        },
        SelectedTab::Playlists => AppView {
            playlist_index: if up {
                prev_index(s.playlist_index)
            } else {
                next_index(s.playlists.len() as int, s.playlist_index)
            },
            ..s
        },
    }
}

impl App {
    pub fn handle_scroll_up(&mut self)
        ensures
            final(self)@ == scroll_step(old(self)@, true),
    {
        match self.selected_tab {
            SelectedTab::Queue => self.queue_list.prev(),
            SelectedTab::DirectoryBrowser => self.browser.prev(),
            SelectedTab::Playlists => self.pl_list.prev(),
        }
    }

    pub fn handle_scroll_down(&mut self)
        ensures
            final(self)@ == scroll_step(old(self)@, false),
    {
        match self.selected_tab {
            SelectedTab::Queue => self.queue_list.next(),
            SelectedTab::DirectoryBrowser => self.browser.next(),
            SelectedTab::Playlists => self.pl_list.next(),
        }
    }
}

/// Handles one mouse event: the wheel moves the active tab's selection;
/// other events change nothing.
pub fn handle_mouse_events(mouse_event: MouseAction, app: &mut App)
    ensures
        mouse_event == MouseAction::ScrollUp ==> final(app)@ == scroll_step(old(app)@, true),
        mouse_event == MouseAction::ScrollDown ==> final(app)@ == scroll_step(old(app)@, false),
        mouse_event == MouseAction::Other ==> final(app)@ == old(app)@,
{
    match mouse_event {
        MouseAction::ScrollUp => app.handle_scroll_up(),
        MouseAction::ScrollDown => app.handle_scroll_down(),
        MouseAction::Other => {},
    }
}

} // verus!
