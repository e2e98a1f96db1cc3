//! The first position at which something holds.

use vstd::prelude::*;

verus! {

/// `i` is below `n`, `p` holds at `i`, and `p` holds nowhere before `i`.
pub open spec fn is_least(n: int, p: spec_fn(int) -> bool, i: int) -> bool {
    &&& 0 <= i < n
    &&& p(i)
    &&& forall|j: int| 0 <= j < i ==> !#[trigger] p(j)
}

/// The first position below `n` at which `p` holds, if there is one.
pub open spec fn least(n: int, p: spec_fn(int) -> bool) -> Option<int> {
    if exists|i: int| is_least(n, p, i) {
        Some(choose|i: int| is_least(n, p, i))
    } else {
        None
    }
}

/// A position that is first is the one `least` names.
pub proof fn lemma_least_found(n: int, p: spec_fn(int) -> bool, i: int)
    requires
        is_least(n, p, i),
    ensures
        least(n, p) == Some(i),
{
    let k = choose|k: int| is_least(n, p, k);
    if k < i {
        assert(!p(k));
    } else if i < k {
        assert(!p(i));
    }
}

/// Where `p` holds nowhere below `n`, `least` names nothing.
pub proof fn lemma_least_absent(n: int, p: spec_fn(int) -> bool)
    requires
        forall|j: int| 0 <= j < n ==> !#[trigger] p(j),
    ensures
        least(n, p) is None,
{
    if exists|i: int| is_least(n, p, i) {
        let k = choose|k: int| is_least(n, p, k);
        assert(!p(k));
    }
}

/// What `least` names is first; where it names nothing, `p` holds nowhere.
pub proof fn lemma_least_sound(n: int, p: spec_fn(int) -> bool)
    ensures
        match least(n, p) {
            Some(i) => is_least(n, p, i),
            None => forall|j: int| 0 <= j < n ==> !#[trigger] p(j),
        },
{
    if least(n, p) is None {
        assert forall|j: int| 0 <= j < n implies !#[trigger] p(j) by {
            if p(j) {
                lemma_least_exists(n, p, j);
            }
        }
    }
}

/// Below any position at which `p` holds lies a first one.
proof fn lemma_least_exists(n: int, p: spec_fn(int) -> bool, j: int)
    requires
        0 <= j < n,
        p(j),
    ensures
        exists|i: int| is_least(n, p, i),
    decreases j,
{
    if exists|k: int| 0 <= k < j && #[trigger] p(k) {
        let k = choose|k: int| 0 <= k < j && #[trigger] p(k);
        lemma_least_exists(n, p, k);
    } else {
        assert(is_least(n, p, j));
    }
}

} // verus!
