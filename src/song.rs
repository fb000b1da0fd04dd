use vstd::prelude::*;
use vstd::string::*;
use crate::order::{lowercase, lower_of, parse_u32, parse_u32_spec};
use crate::search::{contains, contains_spec};

verus! {

/// A song as the client shows it: its path in the daemon's library and the
/// tags the daemon reported for it.
#[derive(Debug)]
pub struct RSong {
    pub file: String,
    pub artist: Option<String>,
    pub title: Option<String>,
    pub duration: Option<u32>,
    pub last_mod: Option<String>,
    pub name: Option<String>,
    pub place: Option<String>,
    pub range: Option<String>,
    pub tags: Vec<(String, String)>,
}

/// What a song holds, as the contracts speak of it.
pub struct RSongView {
    pub file: Seq<char>,
    pub artist: Option<Seq<char>>,
    pub title: Option<Seq<char>>,
    pub duration: Option<u32>,
    pub last_mod: Option<Seq<char>>,
    pub name: Option<Seq<char>>,
    pub place: Option<Seq<char>>,
    pub range: Option<Seq<char>>,
    pub tags: Seq<(Seq<char>, Seq<char>)>,
}

pub open spec fn opt_view(o: Option<String>) -> Option<Seq<char>> {
    match o {
        Some(s) => Some(s@),
        None => None,
    }
}

pub open spec fn pairs_view(v: Seq<(String, String)>) -> Seq<(Seq<char>, Seq<char>)> {
    v.map_values(|p: (String, String)| (p.0@, p.1@))
}

impl View for RSong {
    type V = RSongView;

    open spec fn view(&self) -> RSongView {
        RSongView {
            file: self.file@,
            artist: opt_view(self.artist),
            title: opt_view(self.title),
            duration: self.duration,
            last_mod: opt_view(self.last_mod),
            name: opt_view(self.name),
            place: opt_view(self.place),
            range: opt_view(self.range),
            tags: pairs_view(self.tags@),
        }
    }
}

/// A song known by its path alone.
pub open spec fn bare_song(file: Seq<char>) -> RSongView {
    RSongView {
        file,
        artist: None,
        title: None,
        duration: None,
        last_mod: None,
        name: None,
        place: None,
        range: None,
        tags: Seq::empty(),
    }
}

pub open spec fn artist_word() -> Seq<char> {
    seq!['a', 'r', 't', 'i', 's', 't']
}

pub open spec fn title_word() -> Seq<char> {
    seq!['t', 'i', 't', 'l', 'e']
}

pub open spec fn duration_word() -> Seq<char> {
    seq!['d', 'u', 'r', 'a', 't', 'i', 'o', 'n']
}

pub open spec fn lastmod_word() -> Seq<char> {
    seq!['l', 'a', 's', 't', 'm', 'o', 'd']
}

pub open spec fn name_word() -> Seq<char> {
    seq!['n', 'a', 'm', 'e']
}

pub open spec fn place_word() -> Seq<char> {
    seq!['p', 'l', 'a', 'c', 'e']
}

pub open spec fn range_word() -> Seq<char> {
    seq!['r', 'a', 'n', 'g', 'e']
}

/// One comment of the daemon applied to a song: the first of the words
/// artist, title, duration, lastmod, name, place, range that the key's lower
/// case form contains decides the field that takes the value; a duration
/// that is no decimal number is recorded as absent; other comments are kept
/// as tags.
pub open spec fn apply_comment(s: RSongView, key: Seq<char>, value: Seq<char>) -> RSongView {
    apply_lowered_comment(s, lower_of(key), key, value)
}

/// One comment applied to a song, given the lower-case form `k` of its key.
pub open spec fn apply_lowered_comment(s: RSongView, k: Seq<char>, key: Seq<char>, value: Seq<char>) -> RSongView {
    if contains_spec(k, artist_word()) {
        RSongView { artist: Some(value), ..s }
    } else if contains_spec(k, title_word()) {
        RSongView { title: Some(value), ..s }
    } else if contains_spec(k, duration_word()) {
        RSongView { duration: parse_u32_spec(value), ..s }
    } else if contains_spec(k, lastmod_word()) {
        RSongView { last_mod: Some(value), ..s }
    } else if contains_spec(k, name_word()) {
        RSongView { name: Some(value), ..s }
    } else if contains_spec(k, place_word()) {
        RSongView { place: Some(value), ..s }
    } else if contains_spec(k, range_word()) {
        RSongView { range: Some(value), ..s }
    } else {
        RSongView { tags: s.tags.push((key, value)), ..s }
    }
}

/// The song at `file` with the daemon's comments applied in order.
pub open spec fn song_from_comments(file: Seq<char>, comments: Seq<(Seq<char>, Seq<char>)>) -> RSongView
    decreases comments.len(),
{
    if comments.len() == 0 {
        bare_song(file)
    } else {
        let c = comments.last();
        apply_comment(song_from_comments(file, comments.drop_last()), c.0, c.1)
    }
}

impl RSong {
    /// A song known by its path alone.
    pub fn with_file(file: String) -> (r: RSong)
        ensures
            r@ == bare_song(file@),
    {
        let r = RSong {
            file,
            artist: None,
            title: None,
            duration: None,
            last_mod: None,
            name: None,
            place: None,
            range: None,
            tags: Vec::new(),
        };
        assert(r@.tags =~= Seq::<(Seq<char>, Seq<char>)>::empty());
        r
    }

    /// Applies one comment (key, value) whose key has the lower-case form
    /// `lowered`: see [`apply_lowered_comment`].
    pub fn apply_comment(&mut self, lowered: &str, key: String, value: String)
        ensures
            final(self)@ == apply_lowered_comment(old(self)@, lowered@, key@, value@),
    {
        let artist = "artist";
        let title = "title";
        let duration = "duration";
        let lastmod = "lastmod";
        let name = "name";
        let place = "place";
        let range = "range";
        proof {
            reveal_strlit("artist");
            reveal_strlit("title");
            reveal_strlit("duration");
            reveal_strlit("lastmod");
            reveal_strlit("name");
            reveal_strlit("place");
            reveal_strlit("range");
        }
        assert(artist@ =~= artist_word());
        assert(title@ =~= title_word());
        assert(duration@ =~= duration_word());
        assert(lastmod@ =~= lastmod_word());
        assert(name@ =~= name_word());
        assert(place@ =~= place_word());
        assert(range@ =~= range_word());
        let l = lowered;
        let ghost before = self@;
        if contains(l, artist) {
            self.artist = Some(value);
        } else if contains(l, title) {
            self.title = Some(value);
        } else if contains(l, duration) {
            self.duration = parse_u32(value.as_str());
        } else if contains(l, lastmod) {
            self.last_mod = Some(value);
        } else if contains(l, name) {
            self.name = Some(value);
        } else if contains(l, place) {
            self.place = Some(value);
        } else if contains(l, range) {
            self.range = Some(value);
        } else {
            let ghost pair = (key@, value@);
            self.tags.push((key, value));
            assert(self@.tags =~= before.tags.push(pair));
        }
    }

    /// The song at `filename` described by the comments (key, value) that
    /// the daemon reads from the file, applied in order.
    pub fn new(filename: String, comments: Vec<(String, String)>) -> (r: RSong)
        ensures
            r@ == song_from_comments(filename@, pairs_view(comments@)),
    {
        let ghost cv = pairs_view(comments@);
        let mut s = RSong::with_file(filename);
        let mut comments = comments;
        let mut i: usize = 0;
        assert(cv.subrange(0, 0) =~= Seq::<(Seq<char>, Seq<char>)>::empty());
        while i < comments.len()
            invariant
                i <= comments@.len(),
                cv == pairs_view(comments@),
                s@ == song_from_comments(s@.file, cv.subrange(0, i as int)),
                s@.file == filename@,
            decreases comments@.len() - i,
        {
            let ghost sub = cv.subrange(0, i + 1);
            assert(sub.drop_last() =~= cv.subrange(0, i as int));
            let k = comments[i].0.clone();
            let v = comments[i].1.clone();
            assert(sub.last() == (k@, v@));
            let low = lowercase(k.as_str());
            s.apply_comment(low.as_str(), k, v);
            i = i + 1;
        }
        assert(cv.subrange(0, comments@.len() as int) =~= cv);
        s
    }
}

} // verus!
