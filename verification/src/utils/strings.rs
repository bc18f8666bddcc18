//! Character-level string helpers used by the authentication logic.

use vstd::prelude::*;

verus! {

/// The characters of an optional string.
pub open spec fn option_string_view(s: Option<String>) -> Option<Seq<char>> {
    match s {
        Some(t) => Some(t@),
        None => None,
    }
}

/// `s` begins with `prefix`.
pub open spec fn starts_with(s: Seq<char>, prefix: Seq<char>) -> bool {
    prefix.len() <= s.len() && s.take(prefix.len() as int) == prefix
}

/// `s` holds no occurrence of `c`.
pub open spec fn char_free(s: Seq<char>, c: char) -> bool {
    forall|i: int| 0 <= i < s.len() ==> s[i] != c
}

/// `i` is the index of the first occurrence of `c` in `s`.
pub open spec fn is_first_index_of(s: Seq<char>, c: char, i: int) -> bool {
    0 <= i < s.len() && s[i] == c && char_free(s.take(i), c)
}

/// What `str::split_once` gives for a single-character delimiter: the parts
/// before and after the first occurrence of `c`, or `None` when there is none.
pub open spec fn split_once_spec(s: Seq<char>, c: char) -> Option<(Seq<char>, Seq<char>)> {
    if char_free(s, c) {
        None
    } else {
        let i = choose|i: int| is_first_index_of(s, c, i);
        Some((s.take(i), s.skip(i + 1)))
    }
}

/// The first occurrence of a character is unique.
pub proof fn lemma_first_index_unique(s: Seq<char>, c: char, i: int, j: int)
    requires
        is_first_index_of(s, c, i),
        is_first_index_of(s, c, j),
    ensures
        i == j,
{
    if i < j {
        assert(s.take(j)[i] == c);
    } else if j < i {
        assert(s.take(i)[j] == c);
    }
}

/// Characterises `split_once_spec` by the first index of the delimiter.
pub proof fn lemma_split_once_at(s: Seq<char>, c: char, i: int)
    requires
        is_first_index_of(s, c, i),
    ensures
        split_once_spec(s, c) == Some((s.take(i), s.skip(i + 1))),
{
    assert(!char_free(s, c));
    let j = choose|j: int| is_first_index_of(s, c, j);
    lemma_first_index_unique(s, c, i, j);
}

/// Splitting `left + [c] + right` at its first `c`, where `left` holds no
/// `c`, gives back `left` and `right`.
pub proof fn lemma_split_once_concat(left: Seq<char>, c: char, right: Seq<char>)
    requires
        char_free(left, c),
    ensures
        split_once_spec(left + seq![c] + right, c) == Some((left, right)),
{
    let s = left + seq![c] + right;
    let i = left.len() as int;
    assert(s.take(i) =~= left);
    assert(s[i] == c);
    lemma_split_once_at(s, c, i);
    assert(s.skip(i + 1) =~= right);
}

/// Character-wise equality of two string slices.
pub fn str_eq(a: &str, b: &str) -> (res: bool)
    ensures
        res == (a@ == b@),
{
    let n = a.unicode_len();
    let m = b.unicode_len();
    if n != m {
        return false;
    }
    let mut i: usize = 0;
    while i < n
        invariant
            n == a@.len(),
            m == b@.len(),
            n == m,
            i <= n,
            forall|k: int| 0 <= k < i ==> a@[k] == b@[k],
        decreases n - i,
    {
        if a.get_char(i) != b.get_char(i) {
            return false;
        }
        i = i + 1;
    }
    assert(a@ =~= b@);
    true
}

/// `str::strip_prefix`: the rest of `s` after `prefix`, when `s` begins with it.
pub fn strip_prefix<'a>(s: &'a str, prefix: &str) -> (res: Option<&'a str>)
    ensures
        res is Some <==> starts_with(s@, prefix@),
        res matches Some(rest) ==> rest@ == s@.skip(prefix@.len() as int),
{
    let n = s.unicode_len();
    let p = prefix.unicode_len();
    if p > n {
        return None;
    }
    let mut i: usize = 0;
    while i < p
        invariant
            n == s@.len(),
            p == prefix@.len(),
            p <= n,
            i <= p,
            forall|k: int| 0 <= k < i ==> s@[k] == prefix@[k],
        decreases p - i,
    {
        if s.get_char(i) != prefix.get_char(i) {
            assert(s@.take(p as int)[i as int] != prefix@[i as int]);
            return None;
        }
        i = i + 1;
    }
    assert(s@.take(p as int) =~= prefix@);
    Some(s.substring_char(p, n))
}

/// `str::split_once` with a single-character delimiter.
pub fn split_once(s: &str, c: char) -> (res: Option<(String, String)>)
    ensures
        res matches Some((a, b)) ==> split_once_spec(s@, c) == Some((a@, b@)),
        res is None ==> split_once_spec(s@, c) is None,
{
    let n = s.unicode_len();
    let mut i: usize = 0;
    while i < n
        invariant
            n == s@.len(),
            i <= n,
            char_free(s@.take(i as int), c),
        decreases n - i,
    {
        if s.get_char(i) == c {
            proof {
                lemma_split_once_at(s@, c, i as int);
            }
            let left = s.substring_char(0, i).to_string();
            let right = s.substring_char(i + 1, n).to_string();
            return Some((left, right));
        }
        assert(s@.take(i + 1) =~= s@.take(i as int).push(s@[i as int]));
        i = i + 1;
    }
    assert(s@.take(n as int) =~= s@);
    None
}

} // verus!
