use crate::text::extend_from_range;
use vstd::prelude::*;

verus! {

/// Whether the two-character substitution marker `{}` starts at index `i`.
pub open spec fn marker_at(t: Seq<char>, i: int) -> bool {
    0 <= i && i + 1 < t.len() && t[i] == '{' && t[i + 1] == '}'
}

/// The first index at or after `k` where the marker starts, if there is one.
pub open spec fn first_marker_from(t: Seq<char>, k: int) -> Option<int>
    decreases t.len() - k,
{
    if k < 0 || k + 1 >= t.len() {
        None
    } else if marker_at(t, k) {
        Some(k)
    } else {
        first_marker_from(t, k + 1)
    }
}

/// The template with its first marker replaced by `value`; a template that
/// holds no marker stays as it is.
pub open spec fn substituted(t: Seq<char>, value: Seq<char>) -> Seq<char> {
    match first_marker_from(t, 0) {
        Some(i) => t.subrange(0, i) + value + t.subrange(i + 2, t.len() as int),
        None => t,
    }
}

/// `first_marker_from(t, 0)` is the least index at which the marker starts,
/// and is `None` exactly when the marker starts nowhere.
pub proof fn lemma_first_marker_is_least(t: Seq<char>, k: int)
    requires
        0 <= k,
    ensures
        match first_marker_from(t, k) {
            Some(i) => k <= i && marker_at(t, i) && forall|j: int| k <= j < i ==> !marker_at(t, j),
            None => forall|j: int| k <= j ==> !marker_at(t, j),
        },
    decreases t.len() - k,
{
    if k + 1 >= t.len() {
    } else if marker_at(t, k) {
    } else {
        lemma_first_marker_is_least(t, k + 1);
    }
}

/// A template whose first marker stands right after `before` becomes
/// `before`, the value, and what followed the marker.
pub proof fn lemma_marker_is_replaced(before: Seq<char>, after: Seq<char>, value: Seq<char>)
    requires
        forall|j: int|
            0 <= j < before.len() ==> !marker_at(before + seq!['{', '}'] + after, j),
    ensures
        substituted(before + seq!['{', '}'] + after, value) == before + value + after,
{
    let t = before + seq!['{', '}'] + after;
    let at = before.len() as int;
    assert(t[at] == '{' && t[at + 1] == '}');
    assert(marker_at(t, at));
    lemma_first_marker_is_least(t, 0);
    assert(first_marker_from(t, 0) == Some(at));
    assert(t.subrange(0, at) =~= before);
    assert(t.subrange(at + 2, t.len() as int) =~= after);
}

/// Finds the first marker of a template.
pub fn find_marker(t: &[char]) -> (r: Option<usize>)
    ensures
        match r {
            Some(i) => first_marker_from(t@, 0) == Some(i as int),
            None => first_marker_from(t@, 0) is None,
        },
{
    let mut k: usize = 0;
    while k < t.len() && k + 1 < t.len()
        invariant
            k <= t.len(),
            first_marker_from(t@, 0) == first_marker_from(t@, k as int),
        decreases t.len() - k,
    {
        if t[k] == '{' && t[k + 1] == '}' {
            return Some(k);
        }
        k += 1;
    }
    None
}

/// Puts `value` in the place of the template's first marker.
pub fn substitute(t: &[char], value: &[char]) -> (out: Vec<char>)
    ensures
        out@ == substituted(t@, value@),
{
    let mut out: Vec<char> = Vec::new();
    match find_marker(t) {
        Some(i) => {
            proof {
                lemma_first_marker_is_least(t@, 0);
            }
            extend_from_range(&mut out, t, 0, i);
            extend_from_range(&mut out, value, 0, value.len());
            extend_from_range(&mut out, t, i + 2, t.len());
            proof {
                assert(value@.subrange(0, value.len() as int) =~= value@);
                assert(out@ =~= substituted(t@, value@));
            }
        },
        None => {
            extend_from_range(&mut out, t, 0, t.len());
            proof {
                assert(out@ =~= t@);
            }
        },
    }
    out
}

} // verus!
