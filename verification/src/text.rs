//! Small verified helpers on text, stated over sequences of characters.

use vstd::prelude::*;

verus! {

/// `needle` occurs in `hay` starting at position `i`.
pub open spec fn occurs_at(hay: Seq<char>, needle: Seq<char>, i: int) -> bool {
    &&& 0 <= i
    &&& i + needle.len() <= hay.len()
    &&& hay.subrange(i, i + needle.len()) == needle
}

/// `prefix` is the beginning of `s`.
pub open spec fn begins_with(s: Seq<char>, prefix: Seq<char>) -> bool {
    occurs_at(s, prefix, 0)
}

/// `head` is the part of `s` that stands before the first `sep`, or all of
/// `s` where `sep` does not occur.
pub open spec fn is_head_before(s: Seq<char>, sep: char, head: Seq<char>) -> bool {
    &&& head.len() <= s.len()
    &&& head == s.take(head.len() as int)
    &&& !head.contains(sep)
    &&& (head.len() == s.len() || s[head.len() as int] == sep)
}

/// The characters of a string slice, in order.
pub fn chars_of(s: &str) -> (v: Vec<char>)
    ensures
        v@ == s@,
{
    let mut v: Vec<char> = Vec::new();
    for c in it: s.chars()
        invariant
            v@ == it.seq().take(it.index() as int),
            it.seq() == s@,
    {
        v.push(c);
    }
    v
}

/// Whether `needle` stands in `hay` at position `at`.
pub fn matches_at(hay: &Vec<char>, needle: &Vec<char>, at: usize) -> (b: bool)
    ensures
        b == occurs_at(hay@, needle@, at as int),
{
    if at > hay.len() || needle.len() > hay.len() - at {
        return false;
    }
    let mut k: usize = 0;
    while k < needle.len()
        invariant
            k <= needle.len(),
            at + needle.len() <= hay.len(),
            forall|j: int| 0 <= j < k ==> hay@[at + j] == needle@[j],
        decreases needle.len() - k,
    {
        if hay[at + k] != needle[k] {
            proof {
                let window = hay@.subrange(at as int, at + needle.len());
                assert(window[k as int] == hay@[at + k]);
            }
            return false;
        }
        k += 1;
    }
    assert(hay@.subrange(at as int, at + needle.len()) =~= needle@);
    true
}

/// Whether `s` begins with `prefix`.
pub fn starts_with_text(s: &str, prefix: &str) -> (b: bool)
    ensures
        b == begins_with(s@, prefix@),
{
    let h = chars_of(s);
    let p = chars_of(prefix);
    if p.len() > h.len() {
        return false;
    }
    matches_at(&h, &p, 0)
}

/// Whether two texts are the same.
pub fn same_text(a: &str, b: &str) -> (same: bool)
    ensures
        same == (a@ == b@),
{
    let x = chars_of(a);
    let y = chars_of(b);
    if x.len() != y.len() {
        return false;
    }
    let same = matches_at(&x, &y, 0);
    assert(x@.subrange(0, y@.len() as int) =~= x@);
    same
}

/// The part of `s` before the first `sep`; all of `s` where there is none.
pub fn head_before(s: &str, sep: char) -> (head: String)
    ensures
        is_head_before(s@, sep, head@),
{
    let h = chars_of(s);
    let mut k: usize = 0;
    while k < h.len() && h[k] != sep
        invariant
            k <= h.len(),
            h@ == s@,
            forall|j: int| 0 <= j < k ==> h@[j] != sep,
        decreases h.len() - k,
    {
        k += 1;
    }
    let head = s.substring_char(0, k).to_owned();
    assert(head@ =~= s@.take(k as int));
    head
}

/// Two heads of one text before one separator are the same text.
pub proof fn lemma_head_before_unique(s: Seq<char>, sep: char, a: Seq<char>, b: Seq<char>)
    requires
        is_head_before(s, sep, a),
        is_head_before(s, sep, b),
    ensures
        a == b,
{
    if a.len() < b.len() {
        assert(b[a.len() as int] == s[a.len() as int]);
        assert(b.contains(sep));
    } else if b.len() < a.len() {
        assert(a[b.len() as int] == s[b.len() as int]);
        assert(a.contains(sep));
    }
}

/// A text without `sep` in its first `k` places has a head before `sep`.
proof fn lemma_head_from(s: Seq<char>, sep: char, k: nat)
    requires
        k <= s.len(),
        forall|j: int| 0 <= j < k ==> s[j] != sep,
    ensures
        exists|head: Seq<char>| is_head_before(s, sep, head),
    decreases s.len() - k,
{
    if k == s.len() || s[k as int] == sep {
        let head = s.take(k as int);
        assert(head.take(head.len() as int) =~= head);
        assert(is_head_before(s, sep, head));
    } else {
        lemma_head_from(s, sep, k + 1);
    }
}

/// Every text has a head before every separator.
pub proof fn lemma_head_before_exists(s: Seq<char>, sep: char)
    ensures
        exists|head: Seq<char>| is_head_before(s, sep, head),
{
    lemma_head_from(s, sep, 0);
}

} // verus!
