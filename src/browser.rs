use vstd::prelude::*;
use vstd::string::*;
use crate::list::{next_index, prev_index};
use crate::paths::{join, join_spec, parent, parent_spec, is_root, is_root_path};
use crate::song::RSong;
use crate::order::{sort_for_listing, sorted_for_listing};
use crate::search::texts_view;
use crate::paths::{same_text, library_path, library_path_spec};
use crate::utils::{is_audio_file, has_extension_spec, audio_extensions};
use crate::list::clamped_index;

verus! {

/// What a directory entry is.
#[derive(Debug, Clone, Copy, PartialEq, Eq, Structural)]
pub enum EntryKind {
    Directory,
    File,
}

pub open spec fn directory_label() -> Seq<char> {
    seq!['d', 'i', 'r', 'e', 'c', 't', 'o', 'r', 'y']
}

pub open spec fn file_label() -> Seq<char> {
    seq!['f', 'i', 'l', 'e']
}

/// The kind that the daemon's listing names with `t`.
pub open spec fn kind_of(t: Seq<char>) -> Option<EntryKind> {
    if t == directory_label() {
        Some(EntryKind::Directory)
    } else if t == file_label() {
        Some(EntryKind::File)
    } else {
        None
    }
}

/// The directories of a listing that the browser shows: all but hidden ones.
pub open spec fn shown_directories(listing: Seq<(Seq<char>, Seq<char>)>) -> Seq<Seq<char>>
    decreases listing.len(),
{
    if listing.len() == 0 {
        Seq::empty()
    } else {
        let rest = shown_directories(listing.drop_last());
        let e = listing.last();
        if kind_of(e.0) == Some(EntryKind::Directory) && !(e.1.len() > 0 && e.1[0] == '.') {
            rest.push(e.1)
        } else {
            rest
        }
    }
}

/// The files of a listing that the browser shows: the audio files.
pub open spec fn shown_files(listing: Seq<(Seq<char>, Seq<char>)>) -> Seq<Seq<char>>
    decreases listing.len(),
{
    if listing.len() == 0 {
        Seq::empty()
    } else {
        let rest = shown_files(listing.drop_last());
        let e = listing.last();
        if kind_of(e.0) == Some(EntryKind::File) && has_extension_spec(e.1, audio_extensions()) {
            rest.push(e.1)
        } else {
            rest
        }
    }
}

pub open spec fn tagged(kind: EntryKind, names: Seq<Seq<char>>) -> Seq<(EntryKind, Seq<char>)> {
    names.map_values(|n: Seq<char>| (kind, n))
}

/// The entries the browser shows for a listing: the directories, then the
/// audio files, each group in listing order.
pub open spec fn shown_entries(entries: Seq<(EntryKind, Seq<char>)>, listing: Seq<(Seq<char>, Seq<char>)>) -> bool {
    exists|dirs: Seq<Seq<char>>, files: Seq<Seq<char>>|
        sorted_for_listing(dirs, shown_directories(listing)) && sorted_for_listing(files, shown_files(listing))
            && entries == tagged(EntryKind::Directory, dirs) + tagged(EntryKind::File, files)
}

pub open spec fn listing_view(v: Seq<(String, String)>) -> Seq<(Seq<char>, Seq<char>)> {
    v.map_values(|e: (String, String)| (e.0@, e.1@))
}

/// A song known by its path alone.
pub open spec fn is_bare_song(s: RSong, file: Seq<char>) -> bool {
    s@ == crate::song::bare_song(file)
}

pub open spec fn not_a_song_label() -> Seq<char> {
    seq!['N', 'o', 't', ' ', 'a', ' ', 's', 'o', 'n', 'g']
}

/// The kind of entry that the daemon names with `t`.
pub fn entry_kind_of(t: &str) -> (r: Option<EntryKind>)
    ensures
        r == kind_of(t@),
{
    let dir = "directory";
    let file = "file";
    proof {
        reveal_strlit("directory");
        reveal_strlit("file");
    }
    assert(dir@ =~= directory_label());
    assert(file@ =~= file_label());
    if same_text(t, dir) {
        Some(EntryKind::Directory)
    } else if same_text(t, file) {
        Some(EntryKind::File)
    } else {
        None
    }
}

/// The names in `names` tagged with `kind`, appended to `out`.
fn push_tagged(out: &mut Vec<(EntryKind, String)>, kind: EntryKind, names: Vec<String>)
    ensures
        entries_view(final(out)@) == entries_view(old(out)@) + tagged(kind, texts_view(names@)),
{
    let ghost start = entries_view(out@);
    let mut i: usize = 0;
    while i < names.len()
        invariant
            i <= names@.len(),
            entries_view(out@) == start + tagged(kind, texts_view(names@.subrange(0, i as int))),
        decreases names@.len() - i,
    {
        let ghost before = entries_view(out@);
        out.push((kind, names[i].clone()));
        i = i + 1;
        assert(entries_view(out@) =~= before.push((kind, names@[i - 1]@)));
        assert(tagged(kind, texts_view(names@.subrange(0, i as int))) =~= tagged(
            kind,
            texts_view(names@.subrange(0, i - 1)),
        ).push((kind, names@[i - 1]@)));
        assert(entries_view(out@) =~= start + tagged(kind, texts_view(names@.subrange(0, i as int))));
    }
    assert(names@.subrange(0, names@.len() as int) =~= names@);
}

/// What the directory browser holds.
pub struct BrowserView {
    pub entries: Seq<(EntryKind, Seq<char>)>,
    pub songs: Seq<RSong>,
    pub selected: int,
    pub prev_selected: int,
    pub path: Seq<char>,
    pub prev_path: Seq<char>,
}

pub open spec fn entries_view(v: Seq<(EntryKind, String)>) -> Seq<(EntryKind, Seq<char>)> {
    v.map_values(|e: (EntryKind, String)| (e.0, e.1@))
}

/// The browser after entering the directory `name`: one level of history.
pub open spec fn enter_spec(b: BrowserView, name: Seq<char>) -> BrowserView {
    BrowserView {
        prev_path: b.path,
        path: join_spec(b.path, name),
        prev_selected: b.selected,
        selected: 0,
        ..b
    }
}

/// The browser after going back: the parent of the path, or the recorded
/// previous path when that is the root; the recorded selection comes back.
pub open spec fn go_back_spec(b: BrowserView) -> BrowserView {
    BrowserView {
        path: if !is_root(b.prev_path) {
            parent_spec(b.path)
        } else {
            b.prev_path
        },
        selected: b.prev_selected,
        ..b
    }
}

/// The directory browser: the listing of the current directory, the
/// selection in it, and one level of history.
#[derive(Debug)]
pub struct FileBrowser {
    pub filetree: Vec<(EntryKind, String)>,
    pub selected: usize,
    pub prev_selected: usize,
    pub path: String,
    pub prev_path: String,
    pub songs: Vec<RSong>,
}

impl View for FileBrowser {
    type V = BrowserView;

    open spec fn view(&self) -> BrowserView {
        BrowserView {
            entries: entries_view(self.filetree@),
            songs: self.songs@,
            selected: self.selected as int,
            prev_selected: self.prev_selected as int,
            path: self.path@,
            prev_path: self.prev_path@,
        }
    }
}

impl FileBrowser {
    pub fn new() -> (r: FileBrowser)
        ensures
            r@.entries.len() == 0,
            r@.songs.len() == 0,
            r@.selected == 0,
            r@.prev_selected == 0,
            is_root(r@.path),
            is_root(r@.prev_path),
    {
        let root = ".";
        proof {
            reveal_strlit(".");
        }
        let r = FileBrowser {
            filetree: Vec::new(),
            selected: 0,
            prev_selected: 0,
            path: String::from_str(root),
            prev_path: String::from_str(root),
            songs: Vec::new(),
        };
        assert(r.path@ =~= seq!['.']);
        assert(r@.entries =~= Seq::<(EntryKind, Seq<char>)>::empty());
        r
    }

    /// Go to the next entry; stays on the last one.
    pub fn next(&mut self)
        ensures
            final(self)@ == (BrowserView {
                selected: next_index(old(self)@.entries.len() as int, old(self)@.selected),
                ..old(self)@
            }),
    {
        let len = self.filetree.len();
        if len != 0 && self.selected < len - 1 {
            self.selected += 1;
        }
    }

    /// Go to the previous entry; stays on the first one.
    pub fn prev(&mut self)
        ensures
            final(self)@ == (BrowserView { selected: prev_index(old(self)@.selected), ..old(self)@ }),
    {
        if self.selected != 0 {
            self.selected -= 1;
        }
    }

    pub fn select_first(&mut self)
        ensures
            final(self)@ == (BrowserView { selected: 0, ..old(self)@ }),
    {
        self.selected = 0;
    }

    /// Selects the last entry; an empty listing keeps 0.
    pub fn select_last(&mut self)
        ensures
            final(self)@ == (BrowserView {
                selected: if old(self)@.entries.len() == 0 {
                    0
                } else {
                    old(self)@.entries.len() - 1
                },
                ..old(self)@
            }),
    {
        let len = self.filetree.len();
        if len == 0 {
            self.selected = 0;
        } else {
            self.selected = len - 1;
        }
    }

    /// The selected entry, if the selection lies on one.
    pub fn selected_entry(&self) -> (r: Option<&(EntryKind, String)>)
        ensures
            self.selected < self.filetree@.len() ==> r == Some(&self.filetree@[self.selected as int]),
            self.selected >= self.filetree@.len() ==> r is None,
    {
        if self.selected < self.filetree.len() {
            Some(&self.filetree[self.selected])
        } else {
            None
        }
    }

    /// Enters the directory `name` below the current path; the caller lists
    /// the new path.
    pub fn enter_directory(&mut self, name: &str)
        ensures
            final(self)@ == enter_spec(old(self)@, name@),
    {
        let mut path = join(self.path.as_str(), name);
        std::mem::swap(&mut self.path, &mut path);
        self.prev_path = path;
        self.prev_selected = self.selected;
        self.selected = 0;
    }

    /// Goes back one level and restores the recorded selection; the caller
    /// lists the resulting path.
    pub fn handle_go_back(&mut self)
        ensures
            final(self)@ == go_back_spec(old(self)@),
    {
        if !is_root_path(self.prev_path.as_str()) {
            self.path = parent(self.path.as_str());
        } else {
            self.path = self.prev_path.clone();
        }
        self.selected = self.prev_selected;
    }
}

impl FileBrowser {
    /// Shows a fresh listing of the current directory, as the daemon gives
    /// it (entry type, name): the visible directories, then the audio files,
    /// each group in listing order. The selection is clamped onto the new
    /// entries and the song details are dropped until `set_songs`.
    pub fn update_directory(&mut self, listing: Vec<(String, String)>)
        ensures
            shown_entries(final(self)@.entries, listing_view(listing@)),
            final(self)@.songs.len() == 0,
            final(self)@.selected == clamped_index(final(self)@.entries.len() as int, old(self)@.selected),
            final(self)@.prev_selected == old(self)@.prev_selected,
            final(self)@.path == old(self)@.path,
            final(self)@.prev_path == old(self)@.prev_path,
    {
        let ghost lv = listing_view(listing@);
        let mut dirs: Vec<String> = Vec::new();
        let mut files: Vec<String> = Vec::new();
        let mut i: usize = 0;
        assert(lv.subrange(0, 0) =~= Seq::<(Seq<char>, Seq<char>)>::empty());
        assert(texts_view(dirs@) =~= Seq::<Seq<char>>::empty());
        assert(texts_view(files@) =~= Seq::<Seq<char>>::empty());
        while i < listing.len()
            invariant
                i <= listing@.len(),
                lv == listing_view(listing@),
                texts_view(dirs@) == shown_directories(lv.subrange(0, i as int)),
                texts_view(files@) == shown_files(lv.subrange(0, i as int)),
            decreases listing@.len() - i,
        {
            let ghost sub = lv.subrange(0, i + 1);
            assert(sub.drop_last() =~= lv.subrange(0, i as int));
            assert(sub.last() == (listing@[i as int].0@, listing@[i as int].1@));
            let t = &listing[i].0;
            let f = &listing[i].1;
            match entry_kind_of(t.as_str()) {
                Some(EntryKind::Directory) => {
                    let hidden = f.as_str().unicode_len() > 0 && f.as_str().get_char(0) == '.';
                    if !hidden {
                        let ghost before = texts_view(dirs@);
                        dirs.push(f.clone());
                        assert(texts_view(dirs@) =~= before.push(f@));
                    }
                },
                Some(EntryKind::File) => {
                    if is_audio_file(f.as_str()) {
                        let ghost before = texts_view(files@);
                        files.push(f.clone());
                        assert(texts_view(files@) =~= before.push(f@));
                    }
                },
                None => {},
            }
            i = i + 1;
        }
        assert(lv.subrange(0, listing@.len() as int) =~= lv);
        let ghost dv = shown_directories(lv);
        let ghost fv = shown_files(lv);
        let sorted_dirs = sort_for_listing(dirs);
        let sorted_files = sort_for_listing(files);
        let mut tree: Vec<(EntryKind, String)> = Vec::new();
        assert(entries_view(tree@) =~= Seq::<(EntryKind, Seq<char>)>::empty());
        let ghost ds = texts_view(sorted_dirs@);
        let ghost fs = texts_view(sorted_files@);
        push_tagged(&mut tree, EntryKind::Directory, sorted_dirs);
        push_tagged(&mut tree, EntryKind::File, sorted_files);
        assert(entries_view(tree@) =~= tagged(EntryKind::Directory, ds) + tagged(EntryKind::File, fs));
        self.filetree = tree;
        self.songs = Vec::new();
        if self.selected != 0 && self.selected >= self.filetree.len() {
            if self.filetree.len() == 0 {
                self.selected = 0;
            } else {
                self.selected = self.filetree.len() - 1;
            }
        }
        assert(entries_view(self.filetree@).len() == self.filetree@.len());
    }

    /// The library path of each file entry, for fetching its details; `None`
    /// for directories.
    pub fn song_paths(&self) -> (r: Vec<Option<String>>)
        ensures
            r@.len() == self@.entries.len(),
            forall|i: int|
                0 <= i < r@.len() ==> (#[trigger] r@[i] matches Some(p) ==> self@.entries[i].0 == EntryKind::File
                    && p@ == library_path_spec(join_spec(self@.path, self@.entries[i].1))),
            forall|i: int| 0 <= i < r@.len() ==> (#[trigger] r@[i] is None ==> self@.entries[i].0 == EntryKind::Directory),
    {
        let mut r: Vec<Option<String>> = Vec::new();
        let mut i: usize = 0;
        while i < self.filetree.len()
            invariant
                i <= self.filetree@.len(),
                r@.len() == i,
                forall|k: int|
                    0 <= k < i ==> (#[trigger] r@[k] matches Some(p) ==> self@.entries[k].0 == EntryKind::File
                        && p@ == library_path_spec(join_spec(self@.path, self@.entries[k].1))),
                forall|k: int| 0 <= k < i ==> (#[trigger] r@[k] is None ==> self@.entries[k].0 == EntryKind::Directory),
            decreases self.filetree@.len() - i,
        {
            match self.filetree[i].0 {
                EntryKind::File => {
                    let full = join(self.path.as_str(), self.filetree[i].1.as_str());
                    r.push(Some(library_path(full.as_str())));
                },
                EntryKind::Directory => r.push(None),
            }
            i = i + 1;
        }
        r
    }

    /// Records the details of each entry: for a file what was fetched for it
    /// (a bare song named "Not a song" where nothing was), for a directory a
    /// bare song with an empty path.
    pub fn set_songs(&mut self, fetched: Vec<Option<RSong>>)
        ensures
            final(self)@.entries == old(self)@.entries,
            final(self)@.selected == old(self)@.selected,
            final(self)@.prev_selected == old(self)@.prev_selected,
            final(self)@.path == old(self)@.path,
            final(self)@.prev_path == old(self)@.prev_path,
            final(self)@.songs.len() == old(self)@.entries.len(),
            forall|i: int|
                0 <= i < final(self)@.songs.len() ==> {
                    let s = #[trigger] final(self)@.songs[i];
                    if old(self)@.entries[i].0 == EntryKind::Directory {
                        is_bare_song(s, Seq::empty())
                    } else if i < fetched@.len() && fetched@[i] is Some {
                        s == fetched@[i]->0
                    } else {
                        is_bare_song(s, not_a_song_label())
                    }
                },
    {
        let mut fetched = fetched;
        let ghost fv = fetched@;
        let mut songs: Vec<RSong> = Vec::new();
        let not_a_song = "Not a song";
        proof {
            reveal_strlit("Not a song");
        }
        assert(not_a_song@ =~= not_a_song_label());
        let mut i: usize = 0;
        while i < self.filetree.len()
            invariant
                i <= self.filetree@.len(),
                songs@.len() == i,
                fetched@.len() == fv.len(),
                forall|k: int| i <= k < fv.len() ==> fetched@[k] == fv[k],
                not_a_song@ == not_a_song_label(),
                forall|k: int|
                    0 <= k < i ==> {
                        let s = #[trigger] songs@[k];
                        if self@.entries[k].0 == EntryKind::Directory {
                            is_bare_song(s, Seq::empty())
                        } else if k < fv.len() && fv[k] is Some {
                            s == fv[k]->0
                        } else {
                            is_bare_song(s, not_a_song_label())
                        }
                    },
            decreases self.filetree@.len() - i,
        {
            let song = match self.filetree[i].0 {
                EntryKind::Directory => RSong::with_file(String::new()),
                EntryKind::File => {
                    let got = if i < fetched.len() {
                        let mut slot: Option<RSong> = None;
                        std::mem::swap(&mut slot, &mut fetched[i]);
                        slot
                    } else {
                        None
                    };
                    match got {
                        Some(s) => s,
                        None => RSong::with_file(String::from_str(not_a_song)),
                    }
                },
            };
            songs.push(song);
            i = i + 1;
        }
        self.songs = songs;
    }
}

impl Default for FileBrowser {
    fn default() -> (r: Self)
        ensures
            r@.entries.len() == 0,
            r@.selected == 0,
            is_root(r@.path),
            is_root(r@.prev_path),
    {
        Self::new()
    }
}

/// The library paths of the audio files in the listing of directory `dir`.
pub open spec fn directory_song_paths(dir: Seq<char>, listing: Seq<(EntryKind, Seq<char>)>) -> Seq<Seq<char>>
    decreases listing.len(),
{
    if listing.len() == 0 {
        Seq::empty()
    } else {
        let rest = directory_song_paths(dir, listing.drop_last());
        let e = listing.last();
        if e.0 == EntryKind::File && has_extension_spec(e.1, audio_extensions()) {
            rest.push(library_path_spec(join_spec(dir, e.1)))
        } else {
            rest
        }
    }
}

/// The library paths of the audio files in the listing of directory `dir`,
/// in listing order: what [`crate::app::Action::EnqueueDirectory`] appends.
pub fn directory_songs(dir: &str, listing: &Vec<(EntryKind, String)>) -> (r: Vec<String>)
    ensures
        texts_view(r@) == directory_song_paths(dir@, entries_view(listing@)),
{
    let ghost lv = entries_view(listing@);
    let mut r: Vec<String> = Vec::new();
    let mut i: usize = 0;
    assert(lv.subrange(0, 0) =~= Seq::<(EntryKind, Seq<char>)>::empty());
    assert(texts_view(r@) =~= Seq::<Seq<char>>::empty());
    while i < listing.len()
        invariant
            i <= listing@.len(),
            lv == entries_view(listing@),
            texts_view(r@) == directory_song_paths(dir@, lv.subrange(0, i as int)),
        decreases listing@.len() - i,
    {
        let ghost sub = lv.subrange(0, i + 1);
        assert(sub.drop_last() =~= lv.subrange(0, i as int));
        assert(sub.last() == (listing@[i as int].0, listing@[i as int].1@));
        if listing[i].0 == EntryKind::File && is_audio_file(listing[i].1.as_str()) {
            let full = join(dir, listing[i].1.as_str());
            let ghost before = texts_view(r@);
            r.push(library_path(full.as_str()));
            assert(texts_view(r@) =~= before.push(library_path_spec(join_spec(dir@, listing@[i as int].1@))));
        }
        i = i + 1;
    }
    assert(lv.subrange(0, listing@.len() as int) =~= lv);
    r
}

} // verus!
