//! Character-sequence scanning: substring matching, first-occurrence search
//! and sub-vector extraction, used by the response classifier and the feed
//! parser.

use vstd::prelude::*;

verus! {

/// The pattern `pat` occurs in `text` starting at position `at`.
pub open spec fn matches_at(text: Seq<char>, pat: Seq<char>, at: int) -> bool {
    &&& 0 <= at
    &&& at + pat.len() <= text.len()
    &&& forall|k: int| 0 <= k < pat.len() ==> text[at + k] == pat[k]
}

/// The pattern `pat` occurs somewhere in `text`.
pub open spec fn contains_seq(text: Seq<char>, pat: Seq<char>) -> bool {
    exists|at: int| matches_at(text, pat, at)
}

/// Position of the first occurrence of `pat` in `text` at or after `from`,
/// if there is one.
pub open spec fn find_at(text: Seq<char>, pat: Seq<char>, from: int) -> Option<int>
    decreases text.len() - from,
{
    if from < 0 || from + pat.len() > text.len() {
        None
    } else if matches_at(text, pat, from) {
        Some(from)
    } else {
        find_at(text, pat, from + 1)
    }
}

/// What `find_at` returns is the leftmost match at or after `from`.
pub proof fn lemma_find_at_first(text: Seq<char>, pat: Seq<char>, from: int)
    requires
        0 <= from,
    ensures
        match find_at(text, pat, from) {
            Some(at) => {
                &&& from <= at
                &&& matches_at(text, pat, at)
                &&& forall|j: int| from <= j < at ==> !matches_at(text, pat, j)
            },
            None => forall|j: int| from <= j ==> !matches_at(text, pat, j),
        },
    decreases text.len() - from,
{
    if from < 0 || from + pat.len() > text.len() {
        assert forall|j: int| from <= j implies !matches_at(text, pat, j) by {
            if matches_at(text, pat, j) {
                assert(j + pat.len() <= text.len());
            }
        }
    } else if matches_at(text, pat, from) {
    } else {
        lemma_find_at_first(text, pat, from + 1);
    }
}

/// Does `pat` occur in `text` starting at `at`?
pub fn match_at(text: &Vec<char>, pat: &Vec<char>, at: usize) -> (r: bool)
    ensures
        r == matches_at(text@, pat@, at as int),
{
    if at > text.len() || pat.len() > text.len() - at {
        return false;
    }
    let mut k: usize = 0;
    while k < pat.len()
        invariant
            at + pat.len() <= text.len(),
            k <= pat.len(),
            forall|j: int| 0 <= j < k ==> text@[at + j] == pat@[j],
        decreases pat.len() - k,
    {
        if text[at + k] != pat[k] {
            return false;
        }
        k = k + 1;
    }
    true
}

/// First occurrence of `pat` in `text` at or after `from`.
pub fn find_from(text: &Vec<char>, pat: &Vec<char>, from: usize) -> (r: Option<usize>)
    ensures
        match r {
            Some(at) => at <= text@.len() && find_at(text@, pat@, from as int) == Some(at as int),
            None => find_at(text@, pat@, from as int) is None,
        },
{
    let mut i: usize = from;
    loop
        invariant
            from <= i,
            find_at(text@, pat@, from as int) == find_at(text@, pat@, i as int),
        decreases text@.len() + 1 - i,
    {
        if i > text.len() || pat.len() > text.len() - i {
            return None;
        }
        if match_at(text, pat, i) {
            return Some(i);
        }
        i = i + 1;
    }
}

/// Does `pat` occur anywhere in `text`?
pub fn contains_pattern(text: &Vec<char>, pat: &Vec<char>) -> (r: bool)
    ensures
        r == contains_seq(text@, pat@),
{
    let r = find_from(text, pat, 0);
    proof {
        lemma_find_at_first(text@, pat@, 0);
        if contains_seq(text@, pat@) {
            let at = choose|at: int| matches_at(text@, pat@, at);
            assert(!(find_at(text@, pat@, 0) is None));
        }
    }
    r.is_some()
}

/// Copy of `text[lo..hi]`.
pub fn subvec(text: &Vec<char>, lo: usize, hi: usize) -> (r: Vec<char>)
    requires
        lo <= hi <= text@.len(),
    ensures
        r@ == text@.subrange(lo as int, hi as int),
{
    let mut r: Vec<char> = Vec::new();
    let mut i: usize = lo;
    while i < hi
        invariant
            lo <= i <= hi <= text@.len(),
            r@ == text@.subrange(lo as int, i as int),
        decreases hi - i,
    {
        r.push(text[i]);
        proof {
            assert(r@ =~= text@.subrange(lo as int, i + 1 as int));
        }
        i = i + 1;
    }
    r
}

/// The characters of `s`, in order, as a vector.
pub fn chars_of(s: &str) -> (v: Vec<char>)
    ensures
        v@ == s@,
{
    broadcast use vstd::string::axiom_spec_iter;

    let mut v: Vec<char> = Vec::new();
    for c in it: s.chars()
        invariant
            it.seq() == s@,
            v@ == s@.take(it.index()),
    {
        v.push(c);
        proof {
            assert(v@ =~= s@.take(it.index() + 1));
        }
    }
    proof {
        assert(v@ =~= s@);
    }
    v
}

} // verus!
