use vstd::prelude::*;
use vstd::string::*;
use crate::browser::{BrowserView, FileBrowser, EntryKind};
use crate::list::{ContentList, clamped_index};
use crate::paths::last_component_spec;
use crate::search::{texts_view, first_containing, find_first_containing};
use crate::order::{sort_names, sorted_as_text};
use crate::song::RSong;
use crate::text::{TextEditState, TextView};

verus! {

/// The tab shown in the main area.
#[derive(Debug, Clone, Copy, PartialEq, Eq, Structural)]
pub enum SelectedTab {
    DirectoryBrowser,
    Queue,
    Playlists,
}

/// Which text input, if any, receives the keys.
#[derive(Debug, Clone, Copy, PartialEq, Eq, Structural)]
pub enum InputMode {
    Normal,
    Editing,
    PlaylistRename,
    NewPlaylist,
}

/// Whether the volume was muted, and the level to restore.
#[derive(Debug, Clone, Copy, PartialEq, Eq, Structural)]
pub enum VolumeStatus {
    Muted(i8),
    Unmuted,
}

/// What the client last learned of the daemon's playback settings.
#[derive(Debug, Clone, Copy, PartialEq, Eq, Structural)]
pub struct PlayerStatus {
    pub volume: i8,
    pub repeat: bool,
    pub random: bool,
}

/// A key as the dispatcher sees it.
#[derive(Debug, Clone, Copy, PartialEq, Eq, Structural)]
pub enum KeyCode {
    Char(char),
    Enter,
    Esc,
    Backspace,
    Left,
    Right,
    Up,
    Down,
    Tab,
    Other,
}

/// A key press; `control` is set when Control is the only modifier held.
#[derive(Debug, Clone, Copy, PartialEq, Eq, Structural)]
pub struct KeyPress {
    pub code: KeyCode,
    pub control: bool,
}

/// Where the append popup sends songs.
#[derive(Debug)]
pub enum AppendTarget {
    NewPlaylist,
    CurrentPlaylist,
    Named(String),
}

/// What an [`AppendTarget`] names, as the contracts speak of it.
pub enum TargetView {
    NewPlaylist,
    CurrentPlaylist,
    Named(Seq<char>),
}

impl View for AppendTarget {
    type V = TargetView;

    open spec fn view(&self) -> TargetView {
        match self {
            AppendTarget::NewPlaylist => TargetView::NewPlaylist,
            AppendTarget::CurrentPlaylist => TargetView::CurrentPlaylist,
            AppendTarget::Named(n) => TargetView::Named(n@),
        }
    }
}

/// The one command for the daemon that a key event asks for.
#[derive(Debug)]
pub enum Action {
    Nothing,
    /// Empty the queue; the local copy follows at the next refresh.
    ClearQueue,
    TogglePause,
    Pause,
    SetRepeat(bool),
    SetRandom(bool),
    Dmenu,
    SeekForward,
    SeekBackward,
    NextSong,
    PrevSong,
    SetVolume(i8),
    Rescan,
    /// Play the song at this queue position.
    SwitchTo(usize),
    /// Delete the song at this queue position.
    Delete(usize),
    /// Delete the songs at these queue positions, given highest first.
    RemoveFromQueue(Vec<usize>),
    /// Swap the songs at two queue positions.
    Swap(usize, usize),
    /// List this directory and hand the listing to the browser.
    ListDirectory(String),
    /// Append this file to the queue and play it.
    PlayFile(String),
    /// Append these files to the queue.
    PushSongs(Vec<String>),
    /// Append the audio files of this directory to the queue.
    EnqueueDirectory(String),
    LoadPlaylist(String),
    RenamePlaylist(String, String),
    /// Add these files to the named playlist.
    AddToPlaylist(String, Vec<String>),
    /// Add the songs of the first playlist to the second.
    CopyPlaylist(String, String),
    /// List this directory and hand the listing to `App::append_listing`
    /// with the target.
    CollectDirectory(String, AppendTarget),
    /// Create the named playlist holding these files.
    CreatePlaylist(String, Vec<String>),
}

/// What an [`Action`] asks for, as the contracts speak of it.
pub enum ActionView {
    Nothing,
    /// Empty the queue; the local copy follows at the next refresh.
    ClearQueue,
    TogglePause,
    Pause,
    SetRepeat(bool),
    SetRandom(bool),
    Dmenu,
    SeekForward,
    SeekBackward,
    NextSong,
    PrevSong,
    SetVolume(i8),
    Rescan,
    SwitchTo(int),
    Delete(int),
    RemoveFromQueue(Seq<int>),
    Swap(int, int),
    ListDirectory(Seq<char>),
    PlayFile(Seq<char>),
    PushSongs(Seq<Seq<char>>),
    EnqueueDirectory(Seq<char>),
    LoadPlaylist(Seq<char>),
    RenamePlaylist(Seq<char>, Seq<char>),
    AddToPlaylist(Seq<char>, Seq<Seq<char>>),
    CopyPlaylist(Seq<char>, Seq<char>),
    CollectDirectory(Seq<char>, TargetView),
    CreatePlaylist(Seq<char>, Seq<Seq<char>>),
}

pub open spec fn positions_view(v: Seq<usize>) -> Seq<int> {
    v.map_values(|i: usize| i as int)
}

impl View for Action {
    type V = ActionView;

    open spec fn view(&self) -> ActionView {
        match self {
            Action::Nothing => ActionView::Nothing,
            Action::ClearQueue => ActionView::ClearQueue,
            Action::TogglePause => ActionView::TogglePause,
            Action::Pause => ActionView::Pause,
            Action::SetRepeat(b) => ActionView::SetRepeat(*b),
            Action::SetRandom(b) => ActionView::SetRandom(*b),
            Action::Dmenu => ActionView::Dmenu,
            Action::SeekForward => ActionView::SeekForward,
            Action::SeekBackward => ActionView::SeekBackward,
            Action::NextSong => ActionView::NextSong,
            Action::PrevSong => ActionView::PrevSong,
            Action::SetVolume(v) => ActionView::SetVolume(*v),
            Action::Rescan => ActionView::Rescan,
            Action::SwitchTo(i) => ActionView::SwitchTo(*i as int),
            Action::Delete(i) => ActionView::Delete(*i as int),
            Action::RemoveFromQueue(v) => ActionView::RemoveFromQueue(positions_view(v@)),
            Action::Swap(i, j) => ActionView::Swap(*i as int, *j as int),
            Action::ListDirectory(p) => ActionView::ListDirectory(p@),
            Action::PlayFile(p) => ActionView::PlayFile(p@),
            Action::PushSongs(v) => ActionView::PushSongs(texts_view(v@)),
            Action::EnqueueDirectory(p) => ActionView::EnqueueDirectory(p@),
            Action::LoadPlaylist(n) => ActionView::LoadPlaylist(n@),
            Action::RenamePlaylist(a, b) => ActionView::RenamePlaylist(a@, b@),
            Action::AddToPlaylist(n, v) => ActionView::AddToPlaylist(n@, texts_view(v@)),
            Action::CopyPlaylist(a, b) => ActionView::CopyPlaylist(a@, b@),
            Action::CollectDirectory(p, t) => ActionView::CollectDirectory(p@, t@),
            Action::CreatePlaylist(n, v) => ActionView::CreatePlaylist(n@, texts_view(v@)),
        }
    }
}

/// The whole state of the client, as the contracts speak of it.
pub struct AppView {
    pub running: bool,
    pub browser: BrowserView,
    pub queue: Seq<RSong>,
    pub queue_index: int,
    pub playlists: Seq<Seq<char>>,
    pub playlist_index: int,
    pub tab: SelectedTab,
    pub mode: InputMode,
    pub search: TextView,
    pub rename: TextView,
    pub new_name: TextView,
    pub pending: Seq<Seq<char>>,
    pub popup: bool,
    pub targets: Seq<Seq<char>>,
    pub target_index: int,
    pub rescan_pending: bool,
    pub status: PlayerStatus,
    pub volume_status: VolumeStatus,
    pub library: Seq<Seq<char>>,
}

/// The state of the interactive client: every list with its selection, the
/// input mode and text buffers, and what it knows of the daemon.
pub struct App {
    pub running: bool,
    pub browser: FileBrowser,
    pub queue_list: ContentList<RSong>,
    pub pl_list: ContentList<String>,
    pub selected_tab: SelectedTab,
    pub inputmode: InputMode,
    pub search_input: TextEditState,
    pub pl_newname_input: TextEditState,
    pub pl_new_pl_input: TextEditState,
    /// Songs waiting for the playlist whose name is being typed.
    pub pl_new_pl_songs_buffer: Vec<String>,
    pub playlist_popup: bool,
    pub append_list: ContentList<String>,
    pub should_update_song_list: bool,
    pub status: PlayerStatus,
    pub volume_status: VolumeStatus,
    /// The paths of all songs in the daemon's library.
    pub songs_filenames: Vec<String>,
}

impl View for App {
    type V = AppView;

    open spec fn view(&self) -> AppView {
        AppView {
            running: self.running,
            browser: self.browser@,
            queue: self.queue_list.list@,
            queue_index: self.queue_list.index as int,
            playlists: texts_view(self.pl_list.list@),
            playlist_index: self.pl_list.index as int,
            tab: self.selected_tab,
            mode: self.inputmode,
            search: self.search_input@,
            rename: self.pl_newname_input@,
            new_name: self.pl_new_pl_input@,
            pending: texts_view(self.pl_new_pl_songs_buffer@),
            popup: self.playlist_popup,
            targets: texts_view(self.append_list.list@),
            target_index: self.append_list.index as int,
            rescan_pending: self.should_update_song_list,
            status: self.status,
            volume_status: self.volume_status,
            library: texts_view(self.songs_filenames@),
        }
    }
}

/// The files of the queue's songs.
pub open spec fn queue_files(q: Seq<RSong>) -> Seq<Seq<char>> {
    q.map_values(|s: RSong| s.file@)
}

/// The names shown by each tab, which a search runs over.
pub open spec fn tab_labels(s: AppView) -> Seq<Seq<char>> {
    match s.tab {
        SelectedTab::DirectoryBrowser => s.browser.entries.map_values(|e: (EntryKind, Seq<char>)| e.1),
        SelectedTab::Queue => queue_files(s.queue),
        SelectedTab::Playlists => s.playlists,
    }
}

/// The state with the active tab's selection moved to `i`.
pub open spec fn select_in_tab(s: AppView, i: int) -> AppView {
    match s.tab {
        SelectedTab::DirectoryBrowser => AppView { browser: BrowserView { selected: i, ..s.browser }, ..s },
        SelectedTab::Queue => AppView { queue_index: i, ..s },
        SelectedTab::Playlists => AppView { playlist_index: i, ..s },
    }
}

/// The tab that follows `t` in the cycle Queue, DirectoryBrowser, Playlists.
pub open spec fn next_tab(t: SelectedTab) -> SelectedTab {
    match t {
        SelectedTab::Queue => SelectedTab::DirectoryBrowser,
        SelectedTab::DirectoryBrowser => SelectedTab::Playlists,
        SelectedTab::Playlists => SelectedTab::Queue,
    }
}

/// The append popup's entries: the two fixed targets, then the playlists.
pub open spec fn append_targets(names: Seq<Seq<char>>) -> Seq<Seq<char>> {
    seq![new_playlist_label(), current_playlist_label()] + names
}

pub open spec fn new_playlist_label() -> Seq<char> {
    seq!['N', 'e', 'w', ' ', 'P', 'l', 'a', 'y', 'l', 'i', 's', 't']
}

pub open spec fn current_playlist_label() -> Seq<char> {
    seq!['C', 'u', 'r', 'r', 'e', 'n', 't', ' ', 'P', 'l', 'a', 'y', 'l', 'i', 's', 't']
}

/// The target that an entry of the append popup names.
pub open spec fn target_of(name: Seq<char>) -> TargetView {
    if name == current_playlist_label() {
        TargetView::CurrentPlaylist
    } else if name == new_playlist_label() {
        TargetView::NewPlaylist
    } else {
        TargetView::Named(name)
    }
}

/// The library path of the first song whose path contains `short`.
pub open spec fn full_path_spec(library: Seq<Seq<char>>, short: Seq<char>) -> Option<Seq<char>> {
    match first_containing(library, short) {
        Some(i) => Some(library[i]),
        None => None,
    }
}

/// Clones of the texts.
fn clone_texts(v: &Vec<String>) -> (r: Vec<String>)
    ensures
        texts_view(r@) == texts_view(v@),
{
    let mut r: Vec<String> = Vec::new();
    let mut i: usize = 0;
    while i < v.len()
        invariant
            i <= v@.len(),
            r@.len() == i,
            forall|j: int| 0 <= j < i ==> r@[j]@ == v@[j]@,
        decreases v@.len() - i,
    {
        r.push(v[i].clone());
        i = i + 1;
    }
    assert(texts_view(r@) =~= texts_view(v@));
    r
}

impl App {
    /// A fresh client state: Queue tab, Normal mode, everything empty.
    pub fn new(status: PlayerStatus) -> (r: App)
        ensures
            r@.running,
            r@.tab == SelectedTab::Queue,
            r@.mode == InputMode::Normal,
            !r@.popup,
            !r@.rescan_pending,
            r@.queue.len() == 0 && r@.queue_index == 0,
            r@.playlists.len() == 0 && r@.playlist_index == 0,
            r@.targets == append_targets(Seq::empty()) && r@.target_index == 0,
            r@.pending.len() == 0,
            r@.search.text.len() == 0 && r@.search.cursor == 0,
            r@.rename.text.len() == 0 && r@.rename.cursor == 0,
            r@.new_name.text.len() == 0 && r@.new_name.cursor == 0,
            r@.browser.entries.len() == 0 && r@.browser.selected == 0,
            r@.browser.path == seq!['.'] && r@.browser.prev_path == seq!['.'],
            r@.status == status,
            r@.volume_status == VolumeStatus::Unmuted,
            r@.library.len() == 0,
    {
        let mut append_list = ContentList::new();
        append_list.list = append_list_of(&Vec::new());
        let r = App {
            running: true,
            browser: FileBrowser::new(),
            queue_list: ContentList::new(),
            pl_list: ContentList::new(),
            selected_tab: SelectedTab::Queue,
            inputmode: InputMode::Normal,
            search_input: TextEditState::new(),
            pl_newname_input: TextEditState::new(),
            pl_new_pl_input: TextEditState::new(),
            pl_new_pl_songs_buffer: Vec::new(),
            playlist_popup: false,
            append_list,
            should_update_song_list: false,
            status,
            volume_status: VolumeStatus::Unmuted,
            songs_filenames: Vec::new(),
        };
        assert(r@.pending =~= Seq::<Seq<char>>::empty());
        assert(r@.playlists =~= Seq::<Seq<char>>::empty());
        assert(r@.library =~= Seq::<Seq<char>>::empty());
        r
    }

    pub fn quit(&mut self)
        ensures
            final(self)@ == (AppView { running: false, ..old(self)@ }),
    {
        self.running = false;
    }

    /// Cycle through the tabs: Queue, DirectoryBrowser, Playlists, Queue.
    pub fn cycle_tabls(&mut self)
        ensures
            final(self)@ == (AppView { tab: next_tab(old(self)@.tab), ..old(self)@ }),
    {
        self.selected_tab = match self.selected_tab {
            SelectedTab::Queue => SelectedTab::DirectoryBrowser,
            SelectedTab::DirectoryBrowser => SelectedTab::Playlists,
            SelectedTab::Playlists => SelectedTab::Queue,
        };
    }

    /// Replaces the queue with a fresh copy from the daemon; the selection
    /// is clamped onto it.
    pub fn update_queue(&mut self, songs: Vec<RSong>)
        ensures
            final(self)@ == (AppView {
                queue: songs@,
                queue_index: clamped_index(songs@.len() as int, old(self)@.queue_index),
                ..old(self)@
            }),
    {
        self.queue_list.set_list(songs);
    }

    /// Replaces the playlist names, given in the daemon's order. The
    /// Playlists tab shows them sorted as text; the append popup shows them
    /// in the daemon's order after its two fixed entries. Both selections
    /// are clamped.
    pub fn update_playlists(&mut self, names: Vec<String>)
        ensures
            sorted_as_text(final(self)@.playlists, texts_view(names@)),
            final(self)@ == (AppView {
                playlists: final(self)@.playlists,
                playlist_index: clamped_index(names@.len() as int, old(self)@.playlist_index),
                targets: append_targets(texts_view(names@)),
                target_index: clamped_index(names@.len() + 2int, old(self)@.target_index),
                ..old(self)@
            }),
    {
        let targets = append_list_of(&names);
        assert(targets@.len() == texts_view(targets@).len());
        self.append_list.set_list(targets);
        let sorted = sort_names(names);
        proof {
            let order = choose|order: Seq<int>|
                crate::order::is_keyed_order(order, crate::order::text_keys(texts_view(names@))) && texts_view(sorted@).len()
                    == order.len() && forall|k: int|
                    0 <= k < order.len() ==> #[trigger] texts_view(sorted@)[k] == texts_view(names@)[order[k]];
            assert(order.len() == texts_view(names@).len());
            assert(sorted@.len() == texts_view(sorted@).len());
            assert(names@.len() == texts_view(names@).len());
        }
        self.pl_list.set_list(sorted);
    }

    /// Refreshes the playlist names after a change the client made (a
    /// rename, an addition, a new playlist): both the Playlists tab and the
    /// append popup show them in the daemon's order, the popup after its two
    /// fixed entries. Both selections are clamped.
    pub fn refresh_playlists(&mut self, names: Vec<String>)
        ensures
            final(self)@ == (AppView {
                playlists: texts_view(names@),
                playlist_index: clamped_index(names@.len() as int, old(self)@.playlist_index),
                targets: append_targets(texts_view(names@)),
                target_index: clamped_index(names@.len() + 2int, old(self)@.target_index),
                ..old(self)@
            }),
    {
        let targets = append_list_of(&names);
        assert(targets@.len() == texts_view(targets@).len());
        self.append_list.set_list(targets);
        self.pl_list.set_list(names);
    }

    /// Replaces the list of all song paths in the library.
    pub fn update_library(&mut self, paths: Vec<String>)
        ensures
            final(self)@ == (AppView { library: texts_view(paths@), ..old(self)@ }),
    {
        self.songs_filenames = paths;
    }

    /// Records the daemon's playback settings.
    pub fn update_status(&mut self, status: PlayerStatus)
        ensures
            final(self)@ == (AppView { status, ..old(self)@ }),
    {
        self.status = status;
    }

    /// One timer tick: answers whether the library and the directory listing
    /// are to be fetched again, which is when a rescan was asked for and the
    /// daemon is no longer updating its database.
    pub fn tick(&mut self, updating_db: bool) -> (r: bool)
        ensures
            r == (old(self)@.rescan_pending && !updating_db),
            final(self)@ == (AppView { rescan_pending: old(self)@.rescan_pending && !r, ..old(self)@ }),
    {
        if self.should_update_song_list && !updating_db {
            self.should_update_song_list = false;
            true
        } else {
            false
        }
    }

    /// The names shown by the active tab.
    pub fn tab_labels(&self) -> (r: Vec<String>)
        ensures
            texts_view(r@) == tab_labels(self@),
    {
        match self.selected_tab {
            SelectedTab::DirectoryBrowser => {
                let mut r: Vec<String> = Vec::new();
                let mut i: usize = 0;
                while i < self.browser.filetree.len()
                    invariant
                        i <= self.browser.filetree@.len(),
                        r@.len() == i,
                        forall|j: int| 0 <= j < i ==> r@[j]@ == self.browser.filetree@[j].1@,
                    decreases self.browser.filetree@.len() - i,
                {
                    r.push(self.browser.filetree[i].1.clone());
                    i = i + 1;
                }
                assert(texts_view(r@) =~= tab_labels(self@));
                r
            },
            SelectedTab::Queue => {
                let mut r: Vec<String> = Vec::new();
                let mut i: usize = 0;
                while i < self.queue_list.list.len()
                    invariant
                        i <= self.queue_list.list@.len(),
                        r@.len() == i,
                        forall|j: int| 0 <= j < i ==> r@[j]@ == self.queue_list.list@[j].file@,
                    decreases self.queue_list.list@.len() - i,
                {
                    r.push(self.queue_list.list[i].file.clone());
                    i = i + 1;
                }
                assert(texts_view(r@) =~= tab_labels(self@));
                r
            },
            SelectedTab::Playlists => clone_texts(&self.pl_list.list),
        }
    }

    /// The library path of the first song whose path contains `short_path`.
    pub fn get_full_path(&self, short_path: &str) -> (r: Option<String>)
        ensures
            r matches Some(p) ==> full_path_spec(self@.library, short_path@) == Some(p@),
            r is None ==> full_path_spec(self@.library, short_path@) is None,
    {
        proof {
            crate::search::lemma_first_containing_bounds(self@.library, short_path@);
        }
        match find_first_containing(&self.songs_filenames, short_path) {
            Some(i) => Some(self.songs_filenames[i].clone()),
            None => None,
        }
    }
}

/// The append popup's entries for these playlist names.
pub fn append_list_of(names: &Vec<String>) -> (r: Vec<String>)
    ensures
        texts_view(r@) == append_targets(texts_view(names@)),
{
    let new_label = "New Playlist";
    let current_label = "Current Playlist";
    proof {
        reveal_strlit("New Playlist");
        reveal_strlit("Current Playlist");
    }
    let mut r: Vec<String> = Vec::new();
    r.push(String::from_str(new_label));
    r.push(String::from_str(current_label));
    assert(new_label@ =~= new_playlist_label());
    assert(current_label@ =~= current_playlist_label());
    let mut i: usize = 0;
    while i < names.len()
        invariant
            i <= names@.len(),
            r@.len() == i + 2,
            r@[0]@ == new_playlist_label(),
            r@[1]@ == current_playlist_label(),
            forall|j: int| 0 <= j < i ==> r@[j + 2]@ == names@[j]@,
        decreases names@.len() - i,
    {
        r.push(names[i].clone());
        i = i + 1;
    }
    assert(texts_view(r@) =~= append_targets(texts_view(names@)));
    r
}

/// The position a seek two seconds forward or back aims at, kept within
/// the range of `u64`: a seek back from the first two seconds aims at 0.
pub open spec fn seek_target_spec(elapsed: u64, forward: bool) -> int {
    if forward {
        if elapsed + 2 > u64::MAX {
            u64::MAX as int
        } else {
            elapsed + 2
        }
    } else {
        if elapsed < 2 {
            0
        } else {
            elapsed - 2
        }
    }
}

/// The position, in seconds, that [`Action::SeekForward`] or
/// [`Action::SeekBackward`] aims at from `elapsed`.
pub fn seek_target(elapsed: u64, forward: bool) -> (r: u64)
    ensures
        r == seek_target_spec(elapsed, forward),
{
    if forward {
        elapsed.saturating_add(2)
    } else {
        elapsed.saturating_sub(2)
    }
}

/// What follows appending a song to the queue so that it plays: start
/// playback when the queue was empty, else switch to the new last song.
#[derive(Debug, Clone, Copy, PartialEq, Eq, Structural)]
pub enum AfterPush {
    Play,
    SwitchTo(usize),
}

/// The step after appending a song to a queue that held `len_before` songs
/// and now holds `len_after`.
pub fn after_push(len_before: usize, len_after: usize) -> (r: AfterPush)
    ensures
        len_before == 0 || len_after == 0 ==> r == AfterPush::Play,
        len_before != 0 && len_after != 0 ==> r == AfterPush::SwitchTo((len_after - 1) as usize),
{
    if len_before == 0 || len_after == 0 {
        AfterPush::Play
    } else {
        AfterPush::SwitchTo(len_after - 1)
    }
}

/// Whether playback is to be started after switching songs: only when the
/// player is stopped.
pub fn needs_play(state: crate::format::PlayState) -> (r: bool)
    ensures
        r == (state == crate::format::PlayState::Stop),
{
    state == crate::format::PlayState::Stop
}

/// The volume level a one-shot command asks for: a decimal number from 0 to
/// 100.
pub fn parse_volume(vol: &str) -> (r: Option<i8>)
    ensures
        r == (match crate::order::parse_u32_spec(vol@) {
            Some(v) => if v <= 100 {
                Some(v as i8)
            } else {
                None
            },
            None => None,
        }),
{
    match crate::order::parse_u32(vol) {
        Some(v) => if v <= 100 {
            Some(v as i8)
        } else {
            None
        },
        None => None,
    }
}

impl App {
    /// The song picked in the external selector, when it names a song of the
    /// library.
    pub fn dmenu_choice(&self, choice: &str) -> (r: Option<String>)
        ensures
            r matches Some(p) ==> p@ == choice@ && self@.library.contains(choice@),
            r is None ==> !self@.library.contains(choice@),
    {
        let mut i: usize = 0;
        while i < self.songs_filenames.len()
            invariant
                i <= self.songs_filenames@.len(),
                forall|k: int| 0 <= k < i ==> self.songs_filenames@[k]@ != choice@,
            decreases self.songs_filenames@.len() - i,
        {
            if crate::paths::same_text(self.songs_filenames[i].as_str(), choice) {
                assert(self@.library[i as int] == choice@);
                return Some(self.songs_filenames[i].clone());
            }
            i = i + 1;
        }
        assert forall|k: int| 0 <= k < self@.library.len() implies self@.library[k] != choice@ by {
            assert(self@.library[k] == self.songs_filenames@[k]@);
        }
        None
    }
}

} // verus!
