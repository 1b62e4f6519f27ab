use crate::text::extend_from_range;
use vstd::prelude::*;

verus! {

/// The characters that separate the tokens of a query: space, tab, line
/// feed, form feed and carriage return.
pub open spec fn is_space(c: char) -> bool {
    c == ' ' || c == '\t' || c == '\n' || c == '\x0C' || c == '\r'
}

/// Whether a token that begins with `!` starts at index `i`: the character
/// there is `!`, and it stands at the start of the query or after a separator.
pub open spec fn is_bang_start(q: Seq<char>, i: int) -> bool {
    0 <= i < q.len() && q[i] == '!' && (i == 0 || is_space(q[i - 1]))
}

/// The start of the first bang token at or after index `k`, if there is one.
pub open spec fn first_bang_from(q: Seq<char>, k: int) -> Option<int>
    decreases q.len() - k,
{
    if k < 0 || k >= q.len() {
        None
    } else if is_bang_start(q, k) {
        Some(k)
    } else {
        first_bang_from(q, k + 1)
    }
}

/// The end of the token that covers index `k`: the first index from `k` on
/// that holds a separator, or the length of the query.
pub open spec fn token_end(q: Seq<char>, k: int) -> int
    decreases q.len() - k,
{
    if k < 0 || k >= q.len() {
        q.len() as int
    } else if is_space(q[k]) {
        k
    } else {
        token_end(q, k + 1)
    }
}

/// The query without the token `q[start..end]` and without one separator
/// next to it: the one that follows the token, or, for a token at the end of
/// the query, the one before it.
pub open spec fn without_token(q: Seq<char>, start: int, end: int) -> Seq<char> {
    if end < q.len() {
        q.subrange(0, start) + q.subrange(end + 1, q.len() as int)
    } else if start > 0 {
        q.subrange(0, start - 1)
    } else {
        Seq::empty()
    }
}

/// A query split at its first bang token.
pub struct BangSplit {
    /// The token without its leading `!`.
    pub trigger: Vec<char>,
    /// The query without the token and one adjacent separator.
    pub rest: Vec<char>,
}

/// What `split_bang` returns, stated on sequences: trigger and remainder.
pub open spec fn bang_split(q: Seq<char>) -> Option<(Seq<char>, Seq<char>)> {
    match first_bang_from(q, 0) {
        Some(i) => Some((q.subrange(i + 1, token_end(q, i)), without_token(q, i, token_end(q, i)))),
        None => None,
    }
}

/// `first_bang_from(q, k)` is the least index from `k` on at which a bang
/// token starts, and is `None` exactly when none starts there or later.
pub proof fn lemma_first_bang_is_least(q: Seq<char>, k: int)
    requires
        0 <= k,
    ensures
        match first_bang_from(q, k) {
            Some(i) => k <= i && is_bang_start(q, i) && forall|j: int|
                k <= j < i ==> !is_bang_start(q, j),
            None => forall|j: int| k <= j ==> !is_bang_start(q, j),
        },
    decreases q.len() - k,
{
    if k >= q.len() {
    } else if is_bang_start(q, k) {
    } else {
        lemma_first_bang_is_least(q, k + 1);
    }
}

/// The token that starts at `k` ends at `token_end(q, k)`: no separator lies
/// inside it, and it is followed by a separator or by the end of the query.
pub proof fn lemma_token_end_bounds(q: Seq<char>, k: int)
    requires
        0 <= k <= q.len(),
    ensures
        k <= token_end(q, k) <= q.len(),
        forall|j: int| k <= j < token_end(q, k) ==> !is_space(q[j]),
        token_end(q, k) < q.len() ==> is_space(q[token_end(q, k)]),
    decreases q.len() - k,
{
    if k >= q.len() {
    } else if is_space(q[k]) {
    } else {
        lemma_token_end_bounds(q, k + 1);
    }
}

/// Whether a text holds no separator.
pub open spec fn is_token(t: Seq<char>) -> bool {
    forall|i: int| 0 <= i < t.len() ==> !is_space(#[trigger] t[i])
}

/// A query that begins with `!`, a trigger and one separator splits into
/// that trigger and all that follows the separator.
pub proof fn lemma_leading_bang(trigger: Seq<char>, sep: char, rest: Seq<char>)
    requires
        is_token(trigger),
        is_space(sep),
    ensures
        bang_split(seq!['!'] + trigger + seq![sep] + rest) == Some((trigger, rest)),
{
    let q = seq!['!'] + trigger + seq![sep] + rest;
    let end = 1 + trigger.len() as int;
    assert(q[0] == '!');
    assert(is_bang_start(q, 0));
    assert(first_bang_from(q, 0) == Some(0int));
    lemma_token_end_bounds(q, 0);
    let e = token_end(q, 0);
    assert(q[end] == sep);
    assert forall|j: int| 1 <= j < end implies !is_space(q[j]) by {
        assert(q[j] == trigger[j - 1]);
    }
    if e < end {
        assert(is_space(q[e]));
    }
    if e > end {
        assert(!is_space(q[end]));
    }
    assert(e == end);
    assert(q.subrange(1, end) =~= trigger);
    assert(without_token(q, 0, end) =~= rest);
}

/// A query that is nothing but `!` and a trigger splits into that trigger
/// and an empty remainder.
pub proof fn lemma_lone_bang(trigger: Seq<char>)
    requires
        is_token(trigger),
    ensures
        bang_split(seq!['!'] + trigger) == Some((trigger, Seq::<char>::empty())),
{
    let q = seq!['!'] + trigger;
    assert(q[0] == '!');
    assert(is_bang_start(q, 0));
    assert(first_bang_from(q, 0) == Some(0int));
    lemma_token_end_bounds(q, 0);
    let e = token_end(q, 0);
    assert forall|j: int| 1 <= j < q.len() implies !is_space(q[j]) by {
        assert(q[j] == trigger[j - 1]);
    }
    if e < q.len() {
        assert(is_space(q[e]));
    }
    assert(e == q.len());
    assert(q.subrange(1, e) =~= trigger);
}

/// A query in which no `!` stands at the start or after a separator has no
/// bang token.
pub proof fn lemma_no_bang(q: Seq<char>)
    requires
        forall|i: int| 0 <= i < q.len() ==> !is_bang_start(q, i),
    ensures
        bang_split(q) is None,
{
    lemma_first_bang_is_least(q, 0);
}

fn space(c: char) -> (r: bool)
    ensures
        r == is_space(c),
{
    c == ' ' || c == '\t' || c == '\n' || c == '\x0C' || c == '\r'
}

/// Finds where the first bang token of a query starts.
pub fn find_bang(q: &[char]) -> (r: Option<usize>)
    ensures
        match r {
            Some(i) => first_bang_from(q@, 0) == Some(i as int),
            None => first_bang_from(q@, 0) is None,
        },
{
    let mut k: usize = 0;
    while k < q.len()
        invariant
            k <= q.len(),
            first_bang_from(q@, 0) == first_bang_from(q@, k as int),
        decreases q.len() - k,
    {
        if q[k] == '!' && (k == 0 || space(q[k - 1])) {
            return Some(k);
        }
        k += 1;
    }
    None
}

/// Finds where the token that covers index `start` ends.
pub fn find_token_end(q: &[char], start: usize) -> (end: usize)
    requires
        start <= q.len(),
    ensures
        end as int == token_end(q@, start as int),
        start <= end <= q.len(),
{
    let mut k: usize = start;
    while k < q.len() && !space(q[k])
        invariant
            start <= k <= q.len(),
            token_end(q@, start as int) == token_end(q@, k as int),
        decreases q.len() - k,
    {
        k += 1;
    }
    k
}

/// Splits a query at its first bang token, if it has one.
pub fn split_bang(q: &[char]) -> (r: Option<BangSplit>)
    ensures
        match r {
            Some(s) => bang_split(q@) == Some((s.trigger@, s.rest@)),
            None => bang_split(q@) is None,
        },
{
    match find_bang(q) {
        None => None,
        Some(start) => {
            proof {
                lemma_first_bang_is_least(q@, 0);
            }
            let end = find_token_end(q, start);
            let mut trigger: Vec<char> = Vec::new();
            let mut rest: Vec<char> = Vec::new();
            proof {
                lemma_token_end_bounds(q@, start as int);
            }
            extend_from_range(&mut trigger, q, start + 1, end);
            if end < q.len() {
                extend_from_range(&mut rest, q, 0, start);
                extend_from_range(&mut rest, q, end + 1, q.len());
            } else if start > 0 {
                extend_from_range(&mut rest, q, 0, start - 1);
            }
            proof {
                assert(trigger@ =~= q@.subrange(start + 1, end as int));
                assert(rest@ =~= without_token(q@, start as int, end as int));
            }
            Some(BangSplit { trigger, rest })
        },
    }
}

} // verus!
