use vstd::prelude::*;

verus! {

/// `i` is the position that `Iterator::max_by_key` picks for these keys: a
/// greatest key, and the last one among equal greatest keys.
pub open spec fn is_last_max(keys: Seq<i32>, i: int) -> bool {
    &&& 0 <= i < keys.len()
    &&& forall|j: int| 0 <= j < keys.len() ==> keys[j] <= keys[i]
    &&& forall|j: int| i < j < keys.len() ==> keys[j] < keys[i]
}

/// The position of the greatest key, the last one on ties; `None` for no keys.
pub fn last_max_index(keys: &Vec<i32>) -> (r: Option<usize>)
    ensures
        keys@.len() == 0 <==> r is None,
        r matches Some(i) ==> is_last_max(keys@, i as int),
{
    if keys.len() == 0 {
        return None;
    }
    let mut best: usize = 0;
    let mut i: usize = 1;
    while i < keys.len()
        invariant
            1 <= i <= keys.len(),
            best < i,
            forall|j: int| 0 <= j < i ==> keys@[j] <= keys@[best as int],
            forall|j: int| best < j < i ==> keys@[j] < keys@[best as int],
        decreases keys.len() - i,
    {
        if keys[i] >= keys[best] {
            best = i;
        }
        i = i + 1;
    }
    Some(best)
}

/// There is only one position that `max_by_key` can pick.
pub proof fn law_last_max_unique(keys: Seq<i32>, i: int, k: int)
    requires
        is_last_max(keys, i),
        is_last_max(keys, k),
    ensures
        i == k,
{
    assert(keys[i] <= keys[k] && keys[k] <= keys[i]);
}

} // verus!
