//! Character-level string helpers with their mathematical models over `Seq<char>`.
use vstd::prelude::*;

verus! {

/// `suffix` is a suffix of `s`.
pub open spec fn seq_ends_with(s: Seq<char>, suffix: Seq<char>) -> bool {
    suffix.len() <= s.len() && s.subrange(s.len() - suffix.len(), s.len() as int) == suffix
}

/// `t` occurs in `s` starting at position `i`.
pub open spec fn occurs_at(s: Seq<char>, t: Seq<char>, i: int) -> bool {
    0 <= i && i + t.len() <= s.len() && s.subrange(i, i + t.len()) == t
}

/// `t` occurs somewhere in `s` (the empty sequence occurs everywhere).
pub open spec fn contains_seq(s: Seq<char>, t: Seq<char>) -> bool {
    exists|i: int| #[trigger] occurs_at(s, t, i)
}

/// `s` with every trailing repetition of `suffix` removed, as `str::trim_end_matches`
/// does for a string pattern.
pub open spec fn trim_suffix_all(s: Seq<char>, suffix: Seq<char>) -> Seq<char>
    decreases s.len(),
{
    if suffix.len() > 0 && seq_ends_with(s, suffix) {
        trim_suffix_all(s.take(s.len() - suffix.len()), suffix)
    } else {
        s
    }
}

/// The characters of `s`, one by one.
pub fn chars_of(s: &str) -> (v: Vec<char>)
    ensures
        v@ == s@,
{
    let mut v: Vec<char> = Vec::new();
    for c in it: s.chars()
        invariant
            v@ == it.seq().take(it.index() as int),
    {
        v.push(c);
    }
    v
}

/// Whether `t` occurs in `s` at position `i`.
pub fn chars_occur_at(s: &Vec<char>, t: &Vec<char>, i: usize) -> (r: bool)
    ensures
        r == occurs_at(s@, t@, i as int),
{
    if i > s.len() || t.len() > s.len() - i {
        return false;
    }
    let mut k: usize = 0;
    while k < t.len()
        invariant
            i + t.len() <= s.len(),
            k <= t.len(),
            forall|j: int| 0 <= j < k ==> s@[i + j] == t@[j],
        decreases t.len() - k,
    {
        if s[i + k] != t[k] {
            assert(s@.subrange(i as int, i + t.len())[k as int] != t@[k as int]);
            return false;
        }
        k = k + 1;
    }
    assert(s@.subrange(i as int, i + t.len()) =~= t@);
    true
}

/// Equality of two strings, character by character.
pub fn str_eq(a: &str, b: &str) -> (r: bool)
    ensures
        r == (a@ == b@),
{
    let av = chars_of(a);
    let bv = chars_of(b);
    if av.len() != bv.len() {
        return false;
    }
    let r = chars_occur_at(&av, &bv, 0);
    assert(av@.subrange(0, bv@.len() as int) =~= av@);
    r
}

/// Whether `t` occurs anywhere in `s`.
pub fn contains_str(s: &str, t: &str) -> (r: bool)
    ensures
        r == contains_seq(s@, t@),
{
    let sv = chars_of(s);
    let tv = chars_of(t);
    if tv.len() > sv.len() {
        assert forall|i: int| !occurs_at(s@, t@, i) by {}
        return false;
    }
    let last = sv.len() - tv.len();
    let mut i: usize = 0;
    loop
        invariant
            last + tv@.len() == sv@.len(),
            sv@ == s@,
            tv@ == t@,
            i <= last,
            forall|j: int| 0 <= j < i ==> !occurs_at(s@, t@, j),
        ensures
            forall|j: int| 0 <= j <= last ==> !occurs_at(s@, t@, j),
        decreases last - i,
    {
        if chars_occur_at(&sv, &tv, i) {
            return true;
        }
        if i == last {
            break;
        }
        i = i + 1;
    }
    assert forall|j: int| !occurs_at(s@, t@, j) by {
        if 0 <= j && j <= last {
        }
    }
    false
}

/// Whether the character `c` occurs in `s`.
pub open spec fn has_char(s: Seq<char>, c: char) -> bool {
    exists|i: int| 0 <= i < s.len() && #[trigger] s[i] == c
}

proof fn lemma_trim_step(s: Seq<char>, suffix: Seq<char>, k: int)
    requires
        suffix.len() > 0,
        suffix.len() <= k <= s.len(),
        seq_ends_with(s.take(k), suffix),
    ensures
        trim_suffix_all(s.take(k), suffix) == trim_suffix_all(s.take(k - suffix.len()), suffix),
{
    assert(s.take(k).take(k - suffix.len()) =~= s.take(k - suffix.len()));
}

/// `s` with all trailing repetitions of `suffix` removed (a view into `s`).
pub fn trim_end_matches<'a>(s: &'a str, suffix: &str) -> (r: &'a str)
    ensures
        r@ == trim_suffix_all(s@, suffix@),
{
    let sv = chars_of(s);
    let tv = chars_of(suffix);
    if tv.len() == 0 {
        return s.substring_char(0, sv.len());
    }
    let mut k: usize = sv.len();
    assert(s@.take(k as int) =~= s@);
    while k >= tv.len() && chars_occur_at(&sv, &tv, k - tv.len())
        invariant
            sv@ == s@,
            tv@ == suffix@,
            tv@.len() > 0,
            k <= sv@.len(),
            trim_suffix_all(s@.take(k as int), suffix@) == trim_suffix_all(s@, suffix@),
        decreases k,
    {
        proof {
            assert(s@.take(k as int).subrange(k - tv@.len(), k as int) =~= s@.subrange(
                k - tv@.len(),
                k as int,
            ));
            lemma_trim_step(s@, suffix@, k as int);
        }
        k = k - tv.len();
    }
    proof {
        if k >= tv@.len() {
            assert(s@.take(k as int).subrange(k - tv@.len(), k as int) =~= s@.subrange(
                k - tv@.len(),
                k as int,
            ));
        }
    }
    s.substring_char(0, k)
}

} // verus!
