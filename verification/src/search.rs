//! Literal substring search over raw output bytes.
//!
//! The interactive session synchronises on fixed markers in a byte stream, so
//! the only matching primitive is "where does this literal first occur".

use vstd::prelude::*;

verus! {

/// `needle` occurs in `hay` starting at index `i`.
pub open spec fn matches_at(hay: Seq<u8>, needle: Seq<u8>, i: int) -> bool {
    &&& 0 <= i
    &&& i + needle.len() <= hay.len()
    &&& hay.subrange(i, i + needle.len()) == needle
}

/// `needle` occurs somewhere in `hay`.
pub open spec fn occurs(hay: Seq<u8>, needle: Seq<u8>) -> bool {
    exists|i: int| matches_at(hay, needle, i)
}

/// `i` is the leftmost index at which `needle` occurs in `hay`.
pub open spec fn is_first_match(hay: Seq<u8>, needle: Seq<u8>, i: int) -> bool {
    &&& matches_at(hay, needle, i)
    &&& forall|j: int| 0 <= j < i ==> !matches_at(hay, needle, j)
}

/// The leftmost index at which `needle` occurs in `hay`, if it occurs at all.
pub open spec fn first_match(hay: Seq<u8>, needle: Seq<u8>) -> Option<int> {
    if occurs(hay, needle) {
        Some(choose|i: int| is_first_match(hay, needle, i))
    } else {
        None
    }
}

/// Two leftmost occurrences are the same occurrence.
pub proof fn lemma_first_match_unique(hay: Seq<u8>, needle: Seq<u8>, i: int, j: int)
    requires
        is_first_match(hay, needle, i),
        is_first_match(hay, needle, j),
    ensures
        i == j,
{
}

/// If `needle` occurs at `i`, some index at or before `i` is the leftmost
/// occurrence.
proof fn lemma_leftmost_exists(hay: Seq<u8>, needle: Seq<u8>, i: int)
    requires
        matches_at(hay, needle, i),
    ensures
        exists|k: int| 0 <= k <= i && is_first_match(hay, needle, k),
    decreases i,
{
    if exists|j: int| 0 <= j < i && matches_at(hay, needle, j) {
        let j = choose|j: int| 0 <= j < i && matches_at(hay, needle, j);
        lemma_leftmost_exists(hay, needle, j);
    } else {
        assert(is_first_match(hay, needle, i));
    }
}

/// `first_match` is `Some(i)` exactly when `i` is the leftmost occurrence, and
/// `None` exactly when there is no occurrence.
pub proof fn lemma_first_match(hay: Seq<u8>, needle: Seq<u8>)
    ensures
        first_match(hay, needle) is None <==> !occurs(hay, needle),
        forall|i: int|
            first_match(hay, needle) == Some(i) <==> #[trigger] is_first_match(hay, needle, i),
{
    if occurs(hay, needle) {
        let w = choose|i: int| matches_at(hay, needle, i);
        lemma_leftmost_exists(hay, needle, w);
        let c = choose|i: int| is_first_match(hay, needle, i);
        assert(is_first_match(hay, needle, c));
        assert forall|i: int| #[trigger] is_first_match(hay, needle, i) implies first_match(
            hay,
            needle,
        ) == Some(i) by {
            lemma_first_match_unique(hay, needle, i, c);
        }
    } else {
        assert forall|i: int| #[trigger] is_first_match(hay, needle, i) implies false by {
            assert(matches_at(hay, needle, i));
        }
    }
}

/// The empty literal occurs at the very start of any output, even of none.
pub proof fn lemma_empty_needle(hay: Seq<u8>)
    ensures
        first_match(hay, Seq::<u8>::empty()) == Some(0int),
{
    let needle = Seq::<u8>::empty();
    assert(hay.subrange(0, 0) =~= needle);
    assert(is_first_match(hay, needle, 0));
    lemma_first_match(hay, needle);
}

/// Output that arrives later never moves a leftmost occurrence that is
/// already there.
pub proof fn lemma_first_match_stable(hay: Seq<u8>, more: Seq<u8>, needle: Seq<u8>, i: int)
    requires
        first_match(hay, needle) == Some(i),
    ensures
        first_match(hay + more, needle) == Some(i),
{
    lemma_first_match(hay, needle);
    lemma_first_match(hay + more, needle);
    let n = needle.len() as int;
    assert(is_first_match(hay, needle, i));
    assert((hay + more).subrange(i, i + n) =~= hay.subrange(i, i + n));
    assert forall|j: int| 0 <= j < i implies !matches_at(hay + more, needle, j) by {
        if matches_at(hay + more, needle, j) {
            assert((hay + more).subrange(j, j + n) =~= hay.subrange(j, j + n));
            assert(matches_at(hay, needle, j));
        }
    }
    assert(is_first_match(hay + more, needle, i));
}

/// An occurrence survives when more output follows.
pub proof fn lemma_occurs_in_extension(hay: Seq<u8>, more: Seq<u8>, needle: Seq<u8>)
    requires
        occurs(hay, needle),
    ensures
        occurs(hay + more, needle),
{
    let i = choose|i: int| matches_at(hay, needle, i);
    assert((hay + more).subrange(i, i + needle.len()) =~= hay.subrange(i, i + needle.len()));
    assert(matches_at(hay + more, needle, i));
}

/// Whether `needle` occurs in `hay` at `start`.
pub fn matches_here(hay: &[u8], needle: &[u8], start: usize) -> (r: bool)
    ensures
        r == matches_at(hay@, needle@, start as int),
{
    if start > hay.len() || needle.len() > hay.len() - start {
        return false;
    }
    let mut k: usize = 0;
    while k < needle.len()
        invariant
            k <= needle.len(),
            start + needle.len() <= hay.len(),
            forall|t: int| 0 <= t < k ==> hay@[start + t] == needle@[t],
        decreases needle.len() - k,
    {
        if hay[start + k] != needle[k] {
            proof {
                let window = hay@.subrange(start as int, start + needle.len());
                assert(window[k as int] == hay@[start + k]);
            }
            return false;
        }
        k += 1;
    }
    assert(hay@.subrange(start as int, start + needle.len()) =~= needle@);
    true
}

/// Finds the leftmost occurrence of `needle` in `hay`.
pub fn find(hay: &[u8], needle: &[u8]) -> (r: Option<usize>)
    ensures
        match r {
            Some(i) => first_match(hay@, needle@) == Some(i as int),
            None => first_match(hay@, needle@) is None,
        },
{
    proof {
        lemma_first_match(hay@, needle@);
    }
    if needle.len() > hay.len() {
        return None;
    }
    let last: usize = hay.len() - needle.len();
    let mut i: usize = 0;
    loop
        invariant
            last == hay.len() - needle.len(),
            i <= last,
            forall|j: int| 0 <= j < i ==> !matches_at(hay@, needle@, j),
            forall|k: int|
                first_match(hay@, needle@) == Some(k) <==> #[trigger] is_first_match(
                    hay@,
                    needle@,
                    k,
                ),
            first_match(hay@, needle@) is None <==> !occurs(hay@, needle@),
        decreases last - i,
    {
        if matches_here(hay, needle, i) {
            assert(is_first_match(hay@, needle@, i as int));
            return Some(i);
        }
        if i == last {
            return None;
        }
        i += 1;
    }
}

} // verus!
