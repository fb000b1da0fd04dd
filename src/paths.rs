use vstd::prelude::*;
use vstd::string::*;

verus! {

/// `path + "/" + name`.
pub open spec fn join_spec(path: Seq<char>, name: Seq<char>) -> Seq<char> {
    path.push('/') + name
}

/// The position of the last `/` in `s`.
pub open spec fn last_slash(s: Seq<char>) -> Option<int>
    decreases s.len(),
{
    if s.len() == 0 {
        None
    } else if s.last() == '/' {
        Some(s.len() - 1)
    } else {
        last_slash(s.drop_last())
    }
}

/// The path with its last component cut off; a path without `/` stays as it is.
pub open spec fn parent_spec(path: Seq<char>) -> Seq<char> {
    match last_slash(path) {
        Some(i) => path.subrange(0, i),
        None => path,
    }
}

/// What follows the last `/`; the whole text when there is none.
pub open spec fn last_component_spec(s: Seq<char>) -> Seq<char> {
    match last_slash(s) {
        Some(i) => s.subrange(i + 1, s.len() as int),
        None => s,
    }
}

/// The root of the browsed tree, `"."`.
pub open spec fn is_root(path: Seq<char>) -> bool {
    path == seq!['.']
}

/// A path as the daemon names files: without a leading `"./"`.
pub open spec fn library_path_spec(path: Seq<char>) -> Seq<char> {
    if path.len() >= 2 && path[0] == '.' && path[1] == '/' {
        path.subrange(2, path.len() as int)
    } else {
        path
    }
}

proof fn lemma_last_slash_bounds(s: Seq<char>)
    ensures
        last_slash(s) matches Some(i) ==> 0 <= i < s.len() && s[i] == '/',
        last_slash(s) is None ==> forall|k: int| 0 <= k < s.len() ==> s[k] != '/',
    decreases s.len(),
{
    if s.len() > 0 && s.last() != '/' {
        lemma_last_slash_bounds(s.drop_last());
        assert forall|k: int| 0 <= k < s.len() - 1 implies s[k] == s.drop_last()[k] by {}
    }
}

/// `path + "/" + name`.
pub fn join(path: &str, name: &str) -> (r: String)
    ensures
        r@ == join_spec(path@, name@),
{
    let slash = "/";
    proof {
        reveal_strlit("/");
    }
    let r = String::from_str(path).concat(slash).concat(name);
    assert(r@ =~= join_spec(path@, name@));
    r
}

/// The position of the last `/`.
pub fn rfind_slash(s: &str) -> (r: Option<usize>)
    ensures
        r matches Some(i) ==> last_slash(s@) == Some(i as int),
        r is None ==> last_slash(s@) is None,
{
    let len = s.unicode_len();
    let mut i: usize = len;
    assert(s@.subrange(0, len as int) =~= s@);
    while i > 0
        invariant
            i <= len == s@.len(),
            last_slash(s@) == last_slash(s@.subrange(0, i as int)),
        decreases i,
    {
        assert(s@.subrange(0, i as int).drop_last() =~= s@.subrange(0, i - 1));
        if s.get_char(i - 1) == '/' {
            return Some(i - 1);
        }
        i = i - 1;
    }
    assert(s@.subrange(0, 0) =~= Seq::<char>::empty());
    None
}

/// The path with its last component cut off.
pub fn parent(path: &str) -> (r: String)
    ensures
        r@ == parent_spec(path@),
{
    proof {
        lemma_last_slash_bounds(path@);
    }
    match rfind_slash(path) {
        Some(i) => String::from_str(path.substring_char(0, i)),
        None => String::from_str(path),
    }
}

/// What follows the last `/`.
pub fn last_component(s: &str) -> (r: String)
    ensures
        r@ == last_component_spec(s@),
{
    proof {
        lemma_last_slash_bounds(s@);
    }
    let len = s.unicode_len();
    match rfind_slash(s) {
        Some(i) => String::from_str(s.substring_char(i + 1, len)),
        None => String::from_str(s),
    }
}

/// Whether `path` is the root, `"."`.
pub fn is_root_path(path: &str) -> (r: bool)
    ensures
        r == is_root(path@),
{
    if path.unicode_len() == 1 && path.get_char(0) == '.' {
        assert(path@ =~= seq!['.']);
        true
    } else {
        false
    }
}

/// The path without a leading `"./"`.
pub fn library_path(path: &str) -> (r: String)
    ensures
        r@ == library_path_spec(path@),
{
    let len = path.unicode_len();
    if len >= 2 && path.get_char(0) == '.' && path.get_char(1) == '/' {
        String::from_str(path.substring_char(2, len))
    } else {
        String::from_str(path)
    }
}

/// Whether two texts are equal, character by character.
pub fn same_text(a: &str, b: &str) -> (r: bool)
    ensures
        r == (a@ == b@),
{
    let n = a.unicode_len();
    if n != b.unicode_len() {
        return false;
    }
    let mut i: usize = 0;
    while i < n
        invariant
            n == a@.len() == b@.len(),
            i <= n,
            forall|k: int| 0 <= k < i ==> a@[k] == b@[k],
        decreases n - i,
    {
        if a.get_char(i) != b.get_char(i) {
            return false;
        }
        i = i + 1;
    }
    assert(a@ =~= b@);
    true
}

} // verus!
