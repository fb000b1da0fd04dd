use vstd::prelude::*;
use vstd::string::*;

verus! {

/// The extension that `std::path::Path::extension` finds in a path: what
/// follows the last dot of its file name.
pub uninterp spec fn extension_of(path: Seq<char>) -> Option<Seq<char>>;

/// Relies on `std::path::Path::extension`, read back as UTF-8 (always
/// possible for a path made from a `str`).
#[verifier::external_body]
fn path_extension(path: &str) -> (r: Option<String>)
    ensures
        r matches Some(e) ==> extension_of(path@) == Some(e@),
        r is None ==> extension_of(path@) is None,
{
    std::path::Path::new(path).extension().and_then(|e| e.to_str()).map(|e| e.to_string())
}

/// The character code with ASCII upper case mapped to lower case.
pub open spec fn ascii_lower(c: char) -> int {
    if 65 <= (c as u32) <= 90 {
        (c as u32) + 32
    } else {
        c as int
    }
}

/// Equal up to ASCII case.
pub open spec fn eq_ignore_ascii_case_spec(a: Seq<char>, b: Seq<char>) -> bool {
    &&& a.len() == b.len()
    &&& forall|i: int| 0 <= i < a.len() ==> ascii_lower(#[trigger] a[i]) == ascii_lower(b[i])
}

/// The path has an extension equal, up to ASCII case, to one of `extensions`.
pub open spec fn has_extension_spec(path: Seq<char>, extensions: Seq<Seq<char>>) -> bool {
    match extension_of(path) {
        Some(e) => extension_matches_spec(e, extensions),
        None => false,
    }
}

/// `ext` equals, up to ASCII case, one of `extensions`.
pub open spec fn extension_matches_spec(ext: Seq<char>, extensions: Seq<Seq<char>>) -> bool {
    exists|k: int| 0 <= k < extensions.len() && eq_ignore_ascii_case_spec(extensions[k], ext)
}

/// The extensions of the audio files that the browser lists.
pub open spec fn audio_extensions() -> Seq<Seq<char>> {
    seq![
        seq!['m', 'p', '3'],
        seq!['o', 'g', 'g'],
        seq!['f', 'l', 'a', 'c'],
        seq!['m', '4', 'a'],
        seq!['w', 'a', 'v'],
        seq!['a', 'a', 'c'],
        seq!['o', 'p', 'u', 's'],
        seq!['a', 'p', 'e'],
        seq!['w', 'm', 'a'],
        seq!['m', 'p', 'c'],
        seq!['a', 'i', 'f', 'f'],
        seq!['d', 'f', 'f'],
        seq!['m', 'p', '2'],
        seq!['m', 'k', 'a'],
    ]
}

pub open spec fn strs_view(v: Seq<&str>) -> Seq<Seq<char>> {
    v.map_values(|s: &str| s@)
}

/// Whether two texts are equal up to ASCII case.
pub fn eq_ignore_ascii_case(a: &str, b: &str) -> (r: bool)
    ensures
        r == eq_ignore_ascii_case_spec(a@, b@),
{
    let n = a.unicode_len();
    if n != b.unicode_len() {
        return false;
    }
    let mut i: usize = 0;
    while i < n
        invariant
            n == a@.len() == b@.len(),
            i <= n,
            forall|k: int| 0 <= k < i ==> ascii_lower(#[trigger] a@[k]) == ascii_lower(b@[k]),
        decreases n - i,
    {
        let x = a.get_char(i) as u32;
        let y = b.get_char(i) as u32;
        let lx = if 65 <= x && x <= 90 { x + 32 } else { x };
        let ly = if 65 <= y && y <= 90 { y + 32 } else { y };
        if lx != ly {
            assert(ascii_lower(a@[i as int]) != ascii_lower(b@[i as int]));
            return false;
        }
        i = i + 1;
    }
    true
}

/// Whether `ext` equals, up to ASCII case, one of `extensions`.
pub fn extension_matches(ext: &str, extensions: &[&str]) -> (r: bool)
    ensures
        r == extension_matches_spec(ext@, strs_view(extensions@)),
{
    let mut k: usize = 0;
    while k < extensions.len()
        invariant
            k <= extensions@.len(),
            forall|j: int|
                0 <= j < k ==> !eq_ignore_ascii_case_spec(#[trigger] strs_view(extensions@)[j], ext@),
        decreases extensions@.len() - k,
    {
        if eq_ignore_ascii_case(extensions[k], ext) {
            assert(strs_view(extensions@)[k as int] == extensions@[k as int]@);
            return true;
        }
        k = k + 1;
    }
    false
}

/// Checks whether a path has one of the given extensions, ignoring ASCII case.
pub trait FileExtension {
    spec fn path_view(&self) -> Seq<char>;

    fn has_extension(&self, extensions: &[&str]) -> (r: bool)
        ensures
            r == has_extension_spec(self.path_view(), strs_view(extensions@)),
    ;
}

impl FileExtension for str {
    open spec fn path_view(&self) -> Seq<char> {
        self@
    }

    fn has_extension(&self, extensions: &[&str]) -> (r: bool) {
        match path_extension(self) {
            None => false,
            Some(e) => extension_matches(e.as_str(), extensions),
        }
    }
}

/// Whether `name` is an audio file that the browser lists.
pub fn is_audio_file(name: &str) -> (r: bool)
    ensures
        r == has_extension_spec(name@, audio_extensions()),
{
    let exts: Vec<&str> = vec![
        "mp3", "ogg", "flac", "m4a", "wav", "aac", "opus", "ape", "wma", "mpc", "aiff", "dff", "mp2", "mka",
    ];
    proof {
        reveal_strlit("mp3");
        reveal_strlit("ogg");
        reveal_strlit("flac");
        reveal_strlit("m4a");
        reveal_strlit("wav");
        reveal_strlit("aac");
        reveal_strlit("opus");
        reveal_strlit("ape");
        reveal_strlit("wma");
        reveal_strlit("mpc");
        reveal_strlit("aiff");
        reveal_strlit("dff");
        reveal_strlit("mp2");
        reveal_strlit("mka");
    }
    assert(exts@.len() == 14);
    assert(exts@[0]@ =~= seq!['m', 'p', '3']);
    assert(exts@[1]@ =~= seq!['o', 'g', 'g']);
    assert(exts@[2]@ =~= seq!['f', 'l', 'a', 'c']);
    assert(exts@[3]@ =~= seq!['m', '4', 'a']);
    assert(exts@[4]@ =~= seq!['w', 'a', 'v']);
    assert(exts@[5]@ =~= seq!['a', 'a', 'c']);
    assert(exts@[6]@ =~= seq!['o', 'p', 'u', 's']);
    assert(exts@[7]@ =~= seq!['a', 'p', 'e']);
    assert(exts@[8]@ =~= seq!['w', 'm', 'a']);
    assert(exts@[9]@ =~= seq!['m', 'p', 'c']);
    assert(exts@[10]@ =~= seq!['a', 'i', 'f', 'f']);
    assert(exts@[11]@ =~= seq!['d', 'f', 'f']);
    assert(exts@[12]@ =~= seq!['m', 'p', '2']);
    assert(exts@[13]@ =~= seq!['m', 'k', 'a']);
    assert(strs_view(exts@) =~= audio_extensions());
    name.has_extension(exts.as_slice())
}

} // verus!
