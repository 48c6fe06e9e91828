//! Substring predicates over sequences of characters, and the executable
//! searches that decide them.

use vstd::prelude::*;

verus! {

/// `pattern` stands in `text` at offset `at`.
pub open spec fn occurs_at(text: Seq<char>, pattern: Seq<char>, at: int) -> bool {
    &&& 0 <= at
    &&& at + pattern.len() <= text.len()
    &&& text.subrange(at, at + pattern.len()) =~= pattern
}

/// `pattern` stands somewhere in `text`.
pub open spec fn contains(text: Seq<char>, pattern: Seq<char>) -> bool {
    exists|at: int| occurs_at(text, pattern, at)
}

/// `text` begins with `pattern`.
pub open spec fn starts_with(text: Seq<char>, pattern: Seq<char>) -> bool {
    occurs_at(text, pattern, 0)
}

/// `text` ends with `pattern`.
pub open spec fn ends_with(text: Seq<char>, pattern: Seq<char>) -> bool {
    occurs_at(text, pattern, text.len() - pattern.len())
}

/// `text` without one leading `pattern`; `text` itself where it does not
/// begin with `pattern`.
pub open spec fn without_prefix(text: Seq<char>, pattern: Seq<char>) -> Seq<char> {
    if starts_with(text, pattern) {
        text.skip(pattern.len() as int)
    } else {
        text
    }
}

/// `text` without one trailing `pattern`; `text` itself where it does not end
/// with `pattern`.
pub open spec fn without_suffix(text: Seq<char>, pattern: Seq<char>) -> Seq<char> {
    if ends_with(text, pattern) {
        text.take(text.len() - pattern.len())
    } else {
        text
    }
}

/// The characters of `s`, in order.
pub fn chars_of(s: &str) -> (out: Vec<char>)
    ensures
        out@ == s@,
{
    let mut out: Vec<char> = Vec::new();
    for c in it: s.chars()
        invariant
            out@ == it.seq().take(it.index() as int),
            it.seq() == s@,
    {
        out.push(c);
    }
    out
}

/// Decides whether `pattern` stands in `text` at offset `at`.
pub fn matches_at(text: &Vec<char>, pattern: &Vec<char>, at: usize) -> (found: bool)
    ensures
        found == occurs_at(text@, pattern@, at as int),
{
    if pattern.len() > text.len() || at > text.len() - pattern.len() {
        return false;
    }
    let mut k: usize = 0;
    while k < pattern.len()
        invariant
            k <= pattern.len(),
            at + pattern.len() <= text.len(),
            forall|j: int| 0 <= j < k ==> text@[at + j] == pattern@[j],
        decreases pattern.len() - k,
    {
        if text[at + k] != pattern[k] {
            assert(text@.subrange(at as int, at + pattern.len())[k as int] == text@[at + k]);
            return false;
        }
        k += 1;
    }
    assert(text@.subrange(at as int, at + pattern.len()) =~= pattern@);
    true
}

/// The first offset at which `pattern` stands in `text`, if there is one.
pub fn find(text: &Vec<char>, pattern: &Vec<char>) -> (first: Option<usize>)
    ensures
        first is Some <==> contains(text@, pattern@),
        first matches Some(at) ==> {
            &&& occurs_at(text@, pattern@, at as int)
            &&& forall|earlier: int| 0 <= earlier < at ==> !occurs_at(text@, pattern@, earlier)
        },
{
    if pattern.len() > text.len() {
        return None;
    }
    let last: usize = text.len() - pattern.len();
    let mut at: usize = 0;
    while at < last
        invariant
            last == text.len() - pattern.len(),
            at <= last,
            forall|earlier: int| 0 <= earlier < at ==> !occurs_at(text@, pattern@, earlier),
        decreases last - at,
    {
        if matches_at(text, pattern, at) {
            return Some(at);
        }
        at += 1;
    }
    if matches_at(text, pattern, last) {
        Some(last)
    } else {
        None
    }
}

} // verus!
