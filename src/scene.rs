//! Choosing the hit of a ray among all entities of a scene.
use vstd::prelude::*;

verus! {

/// `i` is the first position whose key is smallest: no key is smaller, and
/// every key before it is strictly larger.
pub open spec fn is_first_nearest(keys: Seq<u64>, i: int) -> bool {
    &&& 0 <= i < keys.len()
    &&& forall|j: int| 0 <= j < keys.len() ==> keys[i] <= #[trigger] keys[j]
    &&& forall|j: int| 0 <= j < i ==> keys[i] < #[trigger] keys[j]
}

/// The position of the nearest hit, given each hit's distance from the ray's
/// origin as an ordering key (entities in scene order, then each entity's
/// hits in order). A later hit replaces the best so far only when it is
/// strictly nearer, so on equal distances the first one found wins.
/// No hits, no result.
pub fn nearest(keys: &Vec<u64>) -> (r: Option<usize>)
    ensures
        r is None <==> keys@.len() == 0,
        r matches Some(i) ==> is_first_nearest(keys@, i as int),
{
    if keys.len() == 0 {
        return None;
    }
    let mut best: usize = 0;
    let mut k: usize = 1;
    while k < keys.len()
        invariant
            1 <= k <= keys@.len(),
            best < k,
            forall|j: int| 0 <= j < k ==> keys@[best as int] <= #[trigger] keys@[j],
            forall|j: int| 0 <= j < best ==> keys@[best as int] < #[trigger] keys@[j],
        decreases keys@.len() - k,
    {
        if keys[best] > keys[k] {
            best = k;
        }
        k = k + 1;
    }
    Some(best)
}

} // verus!
