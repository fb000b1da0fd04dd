use vstd::prelude::*;
use vstd::string::*;

verus! {

/// `needle` occurs in `hay` starting at position `i`.
pub open spec fn occurs_at(hay: Seq<char>, needle: Seq<char>, i: int) -> bool {
    &&& 0 <= i
    &&& i + needle.len() <= hay.len()
    &&& hay.subrange(i, i + needle.len()) == needle
}

/// `needle` occurs somewhere in `hay`.
pub open spec fn contains_spec(hay: Seq<char>, needle: Seq<char>) -> bool {
    exists|i: int| occurs_at(hay, needle, i)
}

/// The position of the first label equal to `text`.
pub open spec fn first_equal(labels: Seq<Seq<char>>, text: Seq<char>) -> Option<int>
    decreases labels.len(),
{
    if labels.len() == 0 {
        None
    } else if labels[0] == text {
        Some(0)
    } else {
        match first_equal(labels.drop_first(), text) {
            Some(i) => Some(i + 1),
            None => None,
        }
    }
}

/// The first text that contains `needle`.
pub open spec fn first_containing(texts: Seq<Seq<char>>, needle: Seq<char>) -> Option<int>
    decreases texts.len(),
{
    if texts.len() == 0 {
        None
    } else if contains_spec(texts[0], needle) {
        Some(0)
    } else {
        match first_containing(texts.drop_first(), needle) {
            Some(i) => Some(i + 1),
            None => None,
        }
    }
}

pub proof fn lemma_first_containing_bounds(texts: Seq<Seq<char>>, needle: Seq<char>)
    ensures
        first_containing(texts, needle) matches Some(i) ==> 0 <= i < texts.len() && contains_spec(texts[i], needle),
    decreases texts.len(),
{
    if texts.len() > 0 && !contains_spec(texts[0], needle) {
        lemma_first_containing_bounds(texts.drop_first(), needle);
    }
}

pub open spec fn texts_view(v: Seq<String>) -> Seq<Seq<char>> {
    v.map_values(|s: String| s@)
}

/// The order in which the fuzzy matcher ranks `labels` against `query`,
/// best first.
pub uninterp spec fn fuzzy_ranking(query: Seq<char>, labels: Seq<Seq<char>>) -> Seq<Seq<char>>;

/// Relies on `rust_fuzzy_search::fuzzy_search_sorted`: it scores every label
/// against the query and returns all of them, ordered by score, best first.
#[verifier::external_body]
fn rank_labels(query: &str, labels: &Vec<String>) -> (r: Vec<String>)
    ensures
        texts_view(r@) == fuzzy_ranking(query@, texts_view(labels@)),
        r@.len() == labels@.len(),
        forall|i: int| 0 <= i < r@.len() ==> exists|j: int| 0 <= j < labels@.len() && #[trigger] r@[i]@ == labels@[j]@,
{
    let list: Vec<&str> = labels.iter().map(|s| s.as_str()).collect();
    rust_fuzzy_search::fuzzy_search_sorted(query, &list).into_iter().map(|(s, _)| s.to_string()).collect()
}

/// The label that a search for `query` selects: the fuzzy matcher's best
/// candidate (the first label equal to it, should several be equal).
pub open spec fn best_match_spec(query: Seq<char>, labels: Seq<Seq<char>>) -> Option<int> {
    let ranking = fuzzy_ranking(query, labels);
    if ranking.len() == 0 {
        None
    } else {
        first_equal(labels, ranking[0])
    }
}

/// The characters of `s`.
pub fn chars_of(s: &str) -> (r: Vec<char>)
    ensures
        r@ == s@,
{
    let n = s.unicode_len();
    let mut r: Vec<char> = Vec::new();
    let mut i: usize = 0;
    while i < n
        invariant
            n == s@.len(),
            i <= n,
            r@ == s@.subrange(0, i as int),
        decreases n - i,
    {
        r.push(s.get_char(i));
        i = i + 1;
        assert(r@ =~= s@.subrange(0, i as int));
    }
    assert(s@.subrange(0, n as int) =~= s@);
    r
}

/// Whether `needle` occurs in `hay` at `i`.
fn occurs_at_exec(hay: &Vec<char>, needle: &Vec<char>, i: usize) -> (r: bool)
    requires
        i + needle@.len() <= hay@.len(),
    ensures
        r == occurs_at(hay@, needle@, i as int),
{
    let hay_len = hay.len();
    let mut j: usize = 0;
    while j < needle.len()
        invariant
            hay_len == hay@.len(),
            i + needle@.len() <= hay@.len(),
            j <= needle@.len(),
            forall|k: int| 0 <= k < j ==> hay@[i + k] == needle@[k],
        decreases needle@.len() - j,
    {
        if hay[i + j] != needle[j] {
            assert(hay@.subrange(i as int, i + needle@.len())[j as int] != needle@[j as int]);
            return false;
        }
        j = j + 1;
    }
    assert(hay@.subrange(i as int, i + needle@.len()) =~= needle@);
    true
}

/// Whether `needle` occurs in `hay`, as `str::contains` answers it.
pub fn contains(hay: &str, needle: &str) -> (r: bool)
    ensures
        r == contains_spec(hay@, needle@),
{
    let h = chars_of(hay);
    let n = chars_of(needle);
    if n.len() > h.len() {
        assert forall|i: int| !occurs_at(hay@, needle@, i) by {}
        return false;
    }
    let last = h.len() - n.len();
    let mut i: usize = 0;
    loop
        invariant
            h@ == hay@,
            n@ == needle@,
            last == h@.len() - n@.len(),
            i <= last,
            forall|k: int| 0 <= k < i ==> !occurs_at(hay@, needle@, k),
        ensures
            forall|k: int| 0 <= k <= last ==> !occurs_at(hay@, needle@, k),
        decreases last - i,
    {
        if occurs_at_exec(&h, &n, i) {
            return true;
        }
        if i == last {
            break;
        }
        i = i + 1;
    }
    assert forall|k: int| !occurs_at(hay@, needle@, k) by {
        if 0 <= k && k + needle@.len() <= hay@.len() {
            assert(k <= last);
        }
    }
    false
}

/// The position of the first label equal to `text`.
pub fn find_first_equal(labels: &Vec<String>, text: &str) -> (r: Option<usize>)
    ensures
        r matches Some(i) ==> first_equal(texts_view(labels@), text@) == Some(i as int),
        r is None ==> first_equal(texts_view(labels@), text@) is None,
{
    let mut i: usize = 0;
    assert(texts_view(labels@).subrange(0, labels@.len() as int) =~= texts_view(labels@));
    while i < labels.len()
        invariant
            i <= labels@.len(),
            first_equal(texts_view(labels@), text@) == (match first_equal(
                texts_view(labels@).subrange(i as int, labels@.len() as int),
                text@,
            ) {
                Some(k) => Some(k + i),
                None => None,
            }),
        decreases labels@.len() - i,
    {
        let ghost sub = texts_view(labels@).subrange(i as int, labels@.len() as int);
        assert(sub.drop_first() =~= texts_view(labels@).subrange(i + 1, labels@.len() as int));
        assert(sub[0] == labels@[i as int]@);
        if crate::paths::same_text(labels[i].as_str(), text) {
            return Some(i);
        }
        i = i + 1;
    }
    None
}

/// The position of the first text that contains `needle`.
pub fn find_first_containing(texts: &Vec<String>, needle: &str) -> (r: Option<usize>)
    ensures
        r matches Some(i) ==> first_containing(texts_view(texts@), needle@) == Some(i as int),
        r is None ==> first_containing(texts_view(texts@), needle@) is None,
{
    let mut i: usize = 0;
    assert(texts_view(texts@).subrange(0, texts@.len() as int) =~= texts_view(texts@));
    while i < texts.len()
        invariant
            i <= texts@.len(),
            first_containing(texts_view(texts@), needle@) == (match first_containing(
                texts_view(texts@).subrange(i as int, texts@.len() as int),
                needle@,
            ) {
                Some(k) => Some(k + i),
                None => None,
            }),
        decreases texts@.len() - i,
    {
        let ghost sub = texts_view(texts@).subrange(i as int, texts@.len() as int);
        assert(sub.drop_first() =~= texts_view(texts@).subrange(i + 1, texts@.len() as int));
        assert(sub[0] == texts@[i as int]@);
        if contains(texts[i].as_str(), needle) {
            return Some(i);
        }
        i = i + 1;
    }
    None
}

/// The position of the label that a search for `query` selects.
pub fn best_match(query: &str, labels: &Vec<String>) -> (r: Option<usize>)
    ensures
        r matches Some(i) ==> best_match_spec(query@, texts_view(labels@)) == Some(i as int),
        r is None ==> best_match_spec(query@, texts_view(labels@)) is None,
{
    let ranking = rank_labels(query, labels);
    if ranking.len() == 0 {
        None
    } else {
        find_first_equal(labels, ranking[0].as_str())
    }
}

} // verus!
