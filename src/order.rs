use vstd::prelude::*;
use vstd::string::*;
use crate::search::{chars_of, texts_view};

verus! {

// ----- decimal numbers -----

pub open spec fn is_digit(c: char) -> bool {
    '0' <= c <= '9'
}

pub open spec fn all_digits(s: Seq<char>) -> bool {
    forall|i: int| 0 <= i < s.len() ==> is_digit(#[trigger] s[i])
}

/// The value of a run of decimal digits.
pub open spec fn digits_value(s: Seq<char>) -> nat
    decreases s.len(),
{
    if s.len() == 0 {
        0
    } else {
        digits_value(s.drop_last()) * 10 + ((s.last() as int) - ('0' as int)) as nat
    }
}

/// The text without one leading `+`.
pub open spec fn unsigned_digits(s: Seq<char>) -> Seq<char> {
    if s.len() > 0 && s[0] == '+' {
        s.drop_first()
    } else {
        s
    }
}

/// What `u32::from_str` gives: an optional `+` and then one or more decimal
/// digits whose value fits in `u32`.
pub open spec fn parse_u32_spec(s: Seq<char>) -> Option<u32> {
    let d = unsigned_digits(s);
    if d.len() > 0 && all_digits(d) && digits_value(d) <= u32::MAX {
        Some(digits_value(d) as u32)
    } else {
        None
    }
}

/// Reads a decimal `u32` as `u32::from_str` does.
pub fn parse_u32(s: &str) -> (r: Option<u32>)
    ensures
        r == parse_u32_spec(s@),
{
    let n = s.unicode_len();
    let start: usize = if n > 0 && s.get_char(0) == '+' { 1 } else { 0 };
    let ghost d = unsigned_digits(s@);
    assert(d =~= s@.subrange(start as int, n as int));
    if start >= n {
        return None;
    }
    let mut acc: u64 = 0;
    let mut overflow = false;
    let mut i: usize = start;
    while i < n
        invariant
            start <= i <= n == s@.len(),
            d == unsigned_digits(s@),
            d == s@.subrange(start as int, n as int),
            forall|k: int| 0 <= k < i - start ==> is_digit(#[trigger] d[k]),
            !overflow ==> acc == digits_value(d.subrange(0, i - start)) && acc <= u32::MAX,
            overflow ==> digits_value(d.subrange(0, i - start)) > u32::MAX,
        decreases n - i,
    {
        let c = s.get_char(i);
        if c < '0' || c > '9' {
            assert(!is_digit(d[i - start]));
            assert(!all_digits(d));
            return None;
        }
        let ghost prev = d.subrange(0, i - start);
        assert(d.subrange(0, i + 1 - start).drop_last() =~= prev);
        if !overflow {
            acc = acc * 10 + (c as u64 - '0' as u64);
            if acc > u32::MAX as u64 {
                overflow = true;
            }
        }
        i = i + 1;
    }
    assert(d.subrange(0, n - start) =~= d);
    if overflow {
        None
    } else {
        Some(acc as u32)
    }
}

// ----- names in listing order -----

/// What `str::to_lowercase` makes of a text.
pub uninterp spec fn lower_of(s: Seq<char>) -> Seq<char>;

/// Relies on `str::to_lowercase`: the lower-case form of a text, which
/// depends on the text alone.
#[verifier::external_body]
pub(crate) fn lowercase(s: &str) -> (r: String)
    ensures
        r@ == lower_of(s@),
{
    s.to_lowercase()
}

/// Strict lexicographic order of texts, character by character.
pub open spec fn text_lt(a: Seq<char>, b: Seq<char>) -> bool
    decreases a.len(),
{
    if a.len() == 0 {
        b.len() > 0
    } else if b.len() == 0 {
        false
    } else if a[0] != b[0] {
        a[0] < b[0]
    } else {
        text_lt(a.drop_first(), b.drop_first())
    }
}

pub proof fn lemma_text_lt_transitive(a: Seq<char>, b: Seq<char>, c: Seq<char>)
    requires
        text_lt(a, b),
        text_lt(b, c),
    ensures
        text_lt(a, c),
    decreases a.len(),
{
    if a.len() > 0 && b.len() > 0 && c.len() > 0 && a[0] == b[0] && b[0] == c[0] {
        lemma_text_lt_transitive(a.drop_first(), b.drop_first(), c.drop_first());
    }
}

pub proof fn lemma_text_lt_total(a: Seq<char>, b: Seq<char>)
    ensures
        text_lt(a, b) || text_lt(b, a) || a == b,
    decreases a.len(),
{
    if a.len() > 0 && b.len() > 0 {
        if a[0] == b[0] {
            lemma_text_lt_total(a.drop_first(), b.drop_first());
            if a.drop_first() == b.drop_first() {
                assert(a =~= seq![a[0]] + a.drop_first());
                assert(b =~= seq![b[0]] + b.drop_first());
            }
        } else {
        }
    } else if a.len() == 0 && b.len() == 0 {
        assert(a =~= b);
    }
}

/// The key that orders a listing: the name's value as a number (names that
/// are no number go last), then its lower-case form.
pub open spec fn name_key(name: Seq<char>) -> (u32, Seq<char>) {
    (
        match parse_u32_spec(name) {
            Some(v) => v,
            None => u32::MAX,
        },
        lower_of(name),
    )
}

pub open spec fn key_lt(a: (u32, Seq<char>), b: (u32, Seq<char>)) -> bool {
    a.0 < b.0 || (a.0 == b.0 && text_lt(a.1, b.1))
}

pub open spec fn key_le(a: (u32, Seq<char>), b: (u32, Seq<char>)) -> bool {
    key_lt(a, b) || a == b
}

proof fn lemma_key_lt_transitive(a: (u32, Seq<char>), b: (u32, Seq<char>), c: (u32, Seq<char>))
    requires
        key_lt(a, b),
        key_lt(b, c),
    ensures
        key_lt(a, c),
{
    if a.0 == b.0 && b.0 == c.0 {
        lemma_text_lt_transitive(a.1, b.1, c.1);
    }
}

proof fn lemma_key_lt_total(a: (u32, Seq<char>), b: (u32, Seq<char>))
    ensures
        key_lt(a, b) || key_lt(b, a) || a == b,
{
    lemma_text_lt_total(a.1, b.1);
}

/// `order` lists every position of `keys` once, and puts the keys in
/// ascending order, equal keys in the order they came in.
pub open spec fn is_keyed_order(order: Seq<int>, keys: Seq<(u32, Seq<char>)>) -> bool {
    &&& order.len() == keys.len()
    &&& forall|k: int| 0 <= k < order.len() ==> 0 <= #[trigger] order[k] < keys.len()
    &&& forall|k: int, l: int| 0 <= k < l < order.len() ==> order[k] != order[l]
    &&& forall|k: int, l: int|
        0 <= k < l < order.len() ==> {
            let a = keys[#[trigger] order[k]];
            let b = keys[#[trigger] order[l]];
            key_lt(a, b) || (a == b && order[k] < order[l])
        }
}

/// `sorted` holds `names` ordered by their `keys` (the key of `names[i]` is
/// `keys[i]`): ascending, names of equal key in the order they came in.
pub open spec fn sorted_by_keys(sorted: Seq<Seq<char>>, names: Seq<Seq<char>>, keys: Seq<(u32, Seq<char>)>) -> bool {
    exists|order: Seq<int>|
        is_keyed_order(order, keys) && names.len() == keys.len() && sorted.len() == order.len()
            && forall|k: int| 0 <= k < order.len() ==> #[trigger] sorted[k] == names[order[k]]
}

pub open spec fn listing_keys(names: Seq<Seq<char>>) -> Seq<(u32, Seq<char>)> {
    names.map_values(|n: Seq<char>| name_key(n))
}

pub open spec fn text_keys(names: Seq<Seq<char>>) -> Seq<(u32, Seq<char>)> {
    names.map_values(|n: Seq<char>| (0u32, n))
}

/// `sorted` holds `names` in listing order: by their value as a number, then
/// by their lower-case form; names of equal key in the order they came in.
pub open spec fn sorted_for_listing(sorted: Seq<Seq<char>>, names: Seq<Seq<char>>) -> bool {
    sorted_by_keys(sorted, names, listing_keys(names))
}

/// `sorted` holds `names` in ascending text order, character by character.
pub open spec fn sorted_as_text(sorted: Seq<Seq<char>>, names: Seq<Seq<char>>) -> bool {
    sorted_by_keys(sorted, names, text_keys(names))
}

/// The keys of entries (number, key text, name).
pub open spec fn entry_keys(e: Seq<(u32, String, String)>) -> Seq<(u32, Seq<char>)> {
    e.map_values(|x: (u32, String, String)| (x.0, x.1@))
}

/// The names of entries (number, key text, name).
pub open spec fn entry_names(e: Seq<(u32, String, String)>) -> Seq<Seq<char>> {
    e.map_values(|x: (u32, String, String)| x.2@)
}

struct SortKey {
    num: u32,
    lower: Vec<char>,
}

fn text_less(a: &Vec<char>, b: &Vec<char>) -> (r: bool)
    ensures
        r == text_lt(a@, b@),
{
    let mut i: usize = 0;
    assert(a@.subrange(0, a@.len() as int) =~= a@);
    assert(b@.subrange(0, b@.len() as int) =~= b@);
    while i < a.len() && i < b.len()
        invariant
            i <= a@.len(),
            i <= b@.len(),
            forall|k: int| 0 <= k < i ==> a@[k] == b@[k],
            text_lt(a@, b@) == text_lt(a@.subrange(i as int, a@.len() as int), b@.subrange(i as int, b@.len() as int)),
        decreases a@.len() - i,
    {
        let ghost sa = a@.subrange(i as int, a@.len() as int);
        let ghost sb = b@.subrange(i as int, b@.len() as int);
        if a[i] != b[i] {
            return a[i] < b[i];
        }
        assert(sa.drop_first() =~= a@.subrange(i + 1, a@.len() as int));
        assert(sb.drop_first() =~= b@.subrange(i + 1, b@.len() as int));
        i = i + 1;
    }
    i < b.len()
}

fn key_less(a: &SortKey, b: &SortKey) -> (r: bool)
    ensures
        r == key_lt((a.num, a.lower@), (b.num, b.lower@)),
{
    a.num < b.num || (a.num == b.num && text_less(&a.lower, &b.lower))
}


pub open spec fn order_view(v: Seq<usize>) -> Seq<int> {
    v.map_values(|i: usize| i as int)
}

/// Sorts names for a listing: by their value as a number, then by their
/// lower-case form; the sort is stable.
pub fn sort_for_listing(names: Vec<String>) -> (r: Vec<String>)
    ensures
        sorted_for_listing(texts_view(r@), texts_view(names@)),
{
    let mut entries: Vec<(u32, String, String)> = Vec::new();
    let mut i: usize = 0;
    while i < names.len()
        invariant
            i <= names@.len(),
            entries@.len() == i,
            forall|k: int| 0 <= k < i ==> (#[trigger] entries@[k].0, entries@[k].1@) == name_key(names@[k]@),
            forall|k: int| 0 <= k < i ==> #[trigger] entries@[k].2@ == names@[k]@,
        decreases names@.len() - i,
    {
        let num = match parse_u32(names[i].as_str()) {
            Some(v) => v,
            None => u32::MAX,
        };
        entries.push((num, lowercase(names[i].as_str()), names[i].clone()));
        i = i + 1;
    }
    assert(entry_keys(entries@) =~= listing_keys(texts_view(names@)));
    assert(entry_names(entries@) =~= texts_view(names@));
    sort_by_keys(entries)
}

/// Sorts names in ascending text order, character by character.
pub fn sort_names(names: Vec<String>) -> (r: Vec<String>)
    ensures
        sorted_as_text(texts_view(r@), texts_view(names@)),
{
    let mut entries: Vec<(u32, String, String)> = Vec::new();
    let mut i: usize = 0;
    while i < names.len()
        invariant
            i <= names@.len(),
            entries@.len() == i,
            forall|k: int| 0 <= k < i ==> (#[trigger] entries@[k].0, entries@[k].1@) == (0u32, names@[k]@),
            forall|k: int| 0 <= k < i ==> #[trigger] entries@[k].2@ == names@[k]@,
        decreases names@.len() - i,
    {
        entries.push((0, names[i].clone(), names[i].clone()));
        i = i + 1;
    }
    assert(entry_keys(entries@) =~= text_keys(texts_view(names@)));
    assert(entry_names(entries@) =~= texts_view(names@));
    sort_by_keys(entries)
}

/// Sorts entries (number, key text, name) stably by number, then by key
/// text character by character, and gives their names in that order.
pub fn sort_by_keys(entries: Vec<(u32, String, String)>) -> (r: Vec<String>)
    ensures
        sorted_by_keys(texts_view(r@), entry_names(entries@), entry_keys(entries@)),
{
    let ghost nv = entry_keys(entries@);
    let mut keys: Vec<SortKey> = Vec::new();
    let mut i: usize = 0;
    while i < entries.len()
        invariant
            i <= entries@.len(),
            nv == entry_keys(entries@),
            keys@.len() == i,
            forall|k: int| 0 <= k < i ==> (#[trigger] keys@[k].num, keys@[k].lower@) == nv[k],
        decreases entries@.len() - i,
    {
        keys.push(SortKey { num: entries[i].0, lower: chars_of(entries[i].1.as_str()) });
        i = i + 1;
    }
    let mut order: Vec<usize> = Vec::new();
    let mut n: usize = 0;
    while n < entries.len()
        invariant
            n <= entries@.len(),
            nv == entry_keys(entries@),
            keys@.len() == entries@.len(),
            forall|k: int| 0 <= k < entries@.len() ==> (#[trigger] keys@[k].num, keys@[k].lower@) == nv[k],
            is_keyed_order(order_view(order@), nv.subrange(0, n as int)),
            forall|k: int| 0 <= k < order@.len() ==> #[trigger] order@[k] < n,
        decreases entries@.len() - n,
    {
        let ghost old_order = order_view(order@);
        let mut j: usize = order.len();
        while j > 0 && key_less(&keys[n], &keys[order[j - 1]])
            invariant
                j <= order@.len(),
                order@.len() == n,
                n < entries@.len(),
                keys@.len() == entries@.len(),
                forall|k: int| 0 <= k < order@.len() ==> #[trigger] order@[k] < n,
                forall|l: int|
                    j <= l < order@.len() ==> key_lt(
                        nv[n as int],
                        #[trigger] nv[order@[l] as int],
                    ),
                forall|k: int| 0 <= k < entries@.len() ==> (#[trigger] keys@[k].num, keys@[k].lower@) == nv[k],
            decreases j,
        {
            j = j - 1;
        }
        proof {
            let x = nv[n as int];
            let oldsub = nv.subrange(0, n as int);
            assert forall|l: int| j <= l < n implies key_lt(x, #[trigger] nv[old_order[l]]) by {
                assert(old_order[l] == order@[l] as int);
            }
            if j > 0 {
                let y = nv[old_order[j - 1]];
                assert(old_order[j - 1] == order@[j - 1] as int);
                lemma_key_lt_total(x, y);
                assert(key_le(y, x));
                assert forall|k: int| 0 <= k < j implies key_le(#[trigger] nv[old_order[k]], x) by {
                    let z = nv[old_order[k]];
                    if k < j - 1 {
                        assert(oldsub[old_order[k]] == nv[old_order[k]]);
                        assert(oldsub[old_order[j - 1]] == nv[old_order[j - 1]]);
                        if key_lt(z, y) && key_lt(y, x) {
                            lemma_key_lt_transitive(z, y, x);
                        }
                    }
                }
            }
        }
        order.insert(j, n);
        proof {
            let ov = order_view(order@);
            let sub = nv.subrange(0, n + 1);
            assert forall|k: int| 0 <= k < ov.len() implies 0 <= #[trigger] ov[k] < sub.len() by {}
            assert forall|k: int, l: int| 0 <= k < l < ov.len() implies ov[k] != ov[l] by {
                if k < j && l > j {
                    assert(old_order[k] != old_order[l - 1]);
                } else if k > j {
                    assert(old_order[k - 1] != old_order[l - 1]);
                } else if l < j {
                    assert(old_order[k] != old_order[l]);
                }
            }
            assert forall|k: int, l: int| 0 <= k < l < ov.len() implies {
                let a = sub[#[trigger] ov[k]];
                let b = sub[#[trigger] ov[l]];
                key_lt(a, b) || (a == b && ov[k] < ov[l])
            } by {
                let oldsub = nv.subrange(0, n as int);
                if k < j && l < j {
                    assert(ov[k] == old_order[k] && ov[l] == old_order[l]);
                    assert(oldsub[old_order[k]] == sub[ov[k]]);
                    assert(oldsub[old_order[l]] == sub[ov[l]]);
                } else if k > j && l > j {
                    assert(ov[k] == old_order[k - 1] && ov[l] == old_order[l - 1]);
                    assert(oldsub[old_order[k - 1]] == sub[ov[k]]);
                    assert(oldsub[old_order[l - 1]] == sub[ov[l]]);
                } else if k < j && l > j {
                    assert(ov[k] == old_order[k] && ov[l] == old_order[l - 1]);
                    assert(oldsub[old_order[k]] == sub[ov[k]]);
                    assert(oldsub[old_order[l - 1]] == sub[ov[l]]);
                } else if k == j {
                    assert(ov[l] == old_order[l - 1]);
                    assert(sub[ov[k]] == nv[n as int]);
                    assert(sub[ov[l]] == nv[ov[l]]);
                } else {
                    assert(l == j);
                    assert(ov[k] == old_order[k]);
                    assert(sub[ov[l]] == nv[n as int]);
                    assert(sub[ov[k]] == nv[ov[k]]);
                }
            }
        }
        n = n + 1;
    }
    assert(nv.subrange(0, entries@.len() as int) =~= nv);
    let mut r: Vec<String> = Vec::new();
    let mut k: usize = 0;
    while k < order.len()
        invariant
            k <= order@.len(),
            order@.len() == entries@.len(),
            forall|m: int| 0 <= m < order@.len() ==> #[trigger] order@[m] < entries@.len(),
            r@.len() == k,
            forall|m: int| 0 <= m < k ==> #[trigger] r@[m]@ == entries@[order@[m] as int].2@,
        decreases order@.len() - k,
    {
        r.push(entries[order[k]].2.clone());
        k = k + 1;
    }
    assert(is_keyed_order(order_view(order@), nv));
    assert forall|m: int| 0 <= m < order@.len() implies #[trigger] texts_view(r@)[m] == entry_names(entries@)[order_view(order@)[m]] by {}
    r
}

} // verus!
