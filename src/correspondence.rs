use vstd::prelude::*;

verus! {

/// Index `i` holds the smallest key, and no earlier index holds a key as
/// small: the first minimum in iteration order.
pub open spec fn is_first_minimum(keys: Seq<u64>, i: int) -> bool {
    &&& 0 <= i < keys.len()
    &&& forall|j: int| 0 <= j < keys.len() ==> keys[i] <= #[trigger] keys[j]
    &&& forall|j: int| 0 <= j < i ==> keys[i] < #[trigger] keys[j]
}

/// Brute-force correspondence search: `keys[j]` orders the squared distance
/// from the query point to the `j`-th target point (the caller encodes each
/// non-negative distance so that the integer order is the numeric order).
/// Returns the index of the closest target point, the first one on a tie, or
/// `None` when there is no target point.
pub fn closest_index(keys: &Vec<u64>) -> (r: Option<usize>)
    ensures
        match r {
            None => keys@.len() == 0,
            Some(i) => is_first_minimum(keys@, i as int),
        },
{
    if keys.len() == 0 {
        return None;
    }
    let mut best: usize = 0;
    let mut j: usize = 1;
    while j < keys.len()
        invariant
            1 <= j <= keys@.len(),
            best < j,
            forall|m: int| 0 <= m < j ==> keys@[best as int] <= #[trigger] keys@[m],
            forall|m: int| 0 <= m < best ==> keys@[best as int] < #[trigger] keys@[m],
        decreases keys@.len() - j,
    {
        if keys[j] < keys[best] {
            best = j;
        }
        j = j + 1;
    }
    Some(best)
}

/// The first minimum is unique, so the brute-force search has one answer for
/// given keys: repeating it, or any search that honours the same tie-break,
/// picks the same target point.
pub proof fn lemma_first_minimum_unique(keys: Seq<u64>, i: int, k: int)
    requires
        is_first_minimum(keys, i),
        is_first_minimum(keys, k),
    ensures
        i == k,
{
    if i < k {
        assert(keys[k] < keys[i]);
    } else if k < i {
        assert(keys[i] < keys[k]);
    }
}

} // verus!
