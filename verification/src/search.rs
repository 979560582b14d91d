//! First and last position at which a predicate holds.

use vstd::prelude::*;

verus! {

/// `i` is the first position below `len` at which `p` holds.
pub open spec fn is_first(len: int, p: spec_fn(int) -> bool, i: int) -> bool {
    0 <= i < len && p(i) && forall|j: int| 0 <= j < i ==> !#[trigger] p(j)
}

/// `i` is the last position below `len` at which `p` holds.
pub open spec fn is_last(len: int, p: spec_fn(int) -> bool, i: int) -> bool {
    0 <= i < len && p(i) && forall|j: int| i < j < len ==> !#[trigger] p(j)
}

/// The first position below `len` at which `p` holds, if there is one.
pub open spec fn first_index(len: int, p: spec_fn(int) -> bool) -> Option<int> {
    if exists|i: int| is_first(len, p, i) {
        Some(choose|i: int| is_first(len, p, i))
    } else {
        None
    }
}

/// The last position below `len` at which `p` holds, if there is one.
pub open spec fn last_index(len: int, p: spec_fn(int) -> bool) -> Option<int> {
    if exists|i: int| is_last(len, p, i) {
        Some(choose|i: int| is_last(len, p, i))
    } else {
        None
    }
}

/// A position that is the first at which `p` holds is the one `first_index` names.
pub proof fn lemma_first_index_is(len: int, p: spec_fn(int) -> bool, i: int)
    requires
        is_first(len, p, i),
    ensures
        first_index(len, p) == Some(i),
{
    let k = choose|k: int| is_first(len, p, k);
    assert(is_first(len, p, k));
    if k < i {
        assert(!p(k));
    } else if i < k {
        assert(!p(i));
    }
}

/// What `first_index` says, whichever way it went.
pub proof fn lemma_first_index(len: int, p: spec_fn(int) -> bool)
    ensures
        match first_index(len, p) {
            Some(i) => is_first(len, p, i),
            None => forall|j: int| 0 <= j < len ==> !#[trigger] p(j),
        },
    decreases len,
{
    if exists|i: int| is_first(len, p, i) {
    } else {
        // by induction: were `p` to hold anywhere, it would hold somewhere first
        assert forall|j: int| 0 <= j < len implies !#[trigger] p(j) by {
            if p(j) {
                lemma_first_index(j, p);
                match first_index(j, p) {
                    Some(k) => {
                        assert(is_first(len, p, k));
                    },
                    None => {
                        assert(is_first(len, p, j));
                    },
                }
            }
        }
    }
}

/// A position that is the last at which `p` holds is the one `last_index` names.
pub proof fn lemma_last_index_is(len: int, p: spec_fn(int) -> bool, i: int)
    requires
        is_last(len, p, i),
    ensures
        last_index(len, p) == Some(i),
{
    let k = choose|k: int| is_last(len, p, k);
    assert(is_last(len, p, k));
    if k < i {
        assert(!p(i));
    } else if i < k {
        assert(!p(k));
    }
}

} // verus!
