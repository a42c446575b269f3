use vstd::prelude::*;

verus! {

/// `k` occurs in `t` starting at position `i`.
pub open spec fn occurs_at(t: Seq<char>, k: Seq<char>, i: int) -> bool {
    0 <= i && i + k.len() <= t.len() && t.subrange(i, i + k.len()) == k
}

/// `k` occurs somewhere in `t` (the empty word occurs everywhere).
pub open spec fn contains(t: Seq<char>, k: Seq<char>) -> bool {
    exists|i: int| occurs_at(t, k, i)
}

/// Some word of `ks` occurs in `t`.
pub open spec fn contains_any(t: Seq<char>, ks: Seq<Seq<char>>) -> bool {
    exists|j: int| 0 <= j < ks.len() && contains(t, #[trigger] ks[j])
}

/// Unicode's White_Space property, as `char::is_whitespace` documents it.
pub open spec fn is_ws(c: char) -> bool {
    c == '\t' || c == '\n' || c == '\x0B' || c == '\x0C' || c == '\r' || c == ' '
        || c == '\u{85}' || c == '\u{A0}' || c == '\u{1680}'
        || ('\u{2000}' <= c && c <= '\u{200A}') || c == '\u{2028}' || c == '\u{2029}'
        || c == '\u{202F}' || c == '\u{205F}' || c == '\u{3000}'
}

pub fn is_whitespace(c: char) -> (r: bool)
    ensures
        r == is_ws(c),
{
    c == '\t' || c == '\n' || c == '\x0B' || c == '\x0C' || c == '\r' || c == ' '
        || c == '\u{85}' || c == '\u{A0}' || c == '\u{1680}'
        || ('\u{2000}' <= c && c <= '\u{200A}') || c == '\u{2028}' || c == '\u{2029}'
        || c == '\u{202F}' || c == '\u{205F}' || c == '\u{3000}'
}

/// The characters of `s`, in order.
pub fn chars_of(s: &str) -> (r: Vec<char>)
    ensures
        r@ == s@,
{
    let mut out: Vec<char> = Vec::new();
    for c in it: s.chars()
        invariant
            out@ == it.seq().take(it.index() as int),
            it.seq() == s@,
    {
        out.push(c);
    }
    out
}

/// Whether `k` occurs in `t` at position `i`.
fn occurs_at_exec(t: &Vec<char>, k: &Vec<char>, i: usize) -> (r: bool)
    requires
        i + k@.len() <= t@.len(),
    ensures
        r == occurs_at(t@, k@, i as int),
{
    let tl: usize = t.len();
    let mut j: usize = 0;
    while j < k.len()
        invariant
            j <= k@.len(),
            t@.len() == tl,
            i + k@.len() <= t@.len(),
            forall|m: int| 0 <= m < j ==> t@[i + m] == k@[m],
        decreases k@.len() - j,
    {
        if t[i + j] != k[j] {
            assert(t@.subrange(i as int, i + k@.len())[j as int] != k@[j as int]);
            return false;
        }
        j = j + 1;
    }
    assert(t@.subrange(i as int, i + k@.len()) =~= k@);
    true
}

/// Whether `k` occurs anywhere in `t`.
pub fn contains_exec(t: &Vec<char>, k: &Vec<char>) -> (r: bool)
    ensures
        r == contains(t@, k@),
{
    if k.len() > t.len() {
        return false;
    }
    let last: usize = t.len() - k.len();
    let mut i: usize = 0;
    while i <= last
        invariant
            last + k@.len() == t@.len(),
            forall|m: int| 0 <= m < i ==> !occurs_at(t@, k@, m),
        decreases last + 1 - i,
    {
        if occurs_at_exec(t, k, i) {
            return true;
        }
        if i == last {
            return false;
        }
        i = i + 1;
    }
    false
}

/// The words held in a vector of character vectors.
pub open spec fn words_view(ks: Seq<Vec<char>>) -> Seq<Seq<char>> {
    ks.map_values(|w: Vec<char>| w@)
}

/// Whether some word of `ks` occurs in `t`.
pub fn contains_any_exec(t: &Vec<char>, ks: &Vec<Vec<char>>) -> (r: bool)
    ensures
        r == contains_any(t@, words_view(ks@)),
{
    let mut j: usize = 0;
    while j < ks.len()
        invariant
            forall|m: int| 0 <= m < j ==> !contains(t@, #[trigger] words_view(ks@)[m]),
        decreases ks@.len() - j,
    {
        if contains_exec(t, &ks[j]) {
            assert(words_view(ks@)[j as int] == ks@[j as int]@);
            return true;
        }
        assert(words_view(ks@)[j as int] == ks@[j as int]@);
        j = j + 1;
    }
    false
}

/// Position of the first occurrence of `k` in `t` at or after `i`.
pub open spec fn first_at(t: Seq<char>, k: Seq<char>, i: int) -> Option<int>
    decreases t.len() + 1 - i,
{
    if i < 0 || i + k.len() > t.len() {
        None
    } else if occurs_at(t, k, i) {
        Some(i)
    } else {
        first_at(t, k, i + 1)
    }
}

/// Position of the first occurrence of `k` in `t`.
pub fn find_first(t: &Vec<char>, k: &Vec<char>) -> (r: Option<usize>)
    ensures
        r matches Some(i) ==> first_at(t@, k@, 0) == Some(i as int) && i + k@.len() <= t@.len(),
        r is None ==> first_at(t@, k@, 0) is None,
{
    if k.len() > t.len() {
        return None;
    }
    let last: usize = t.len() - k.len();
    let mut i: usize = 0;
    while i <= last
        invariant
            last + k@.len() == t@.len(),
            first_at(t@, k@, 0) == first_at(t@, k@, i as int),
        decreases last + 1 - i,
    {
        if occurs_at_exec(t, k, i) {
            return Some(i);
        }
        if i == last {
            assert(first_at(t@, k@, i + 1) is None);
            return None;
        }
        i = i + 1;
    }
    None
}

} // verus!
