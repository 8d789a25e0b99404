use vstd::prelude::*;

verus! {

/// `nearer` behaves as a strict order: it answers the same for the same
/// pair, no hit is nearer than itself, and it is transitive.
pub open spec fn strict_order<H, F: Fn(&H, &H) -> bool>(nearer: F) -> bool {
    &&& forall|a: &H, b: &H, x: bool, y: bool|
        #[trigger] nearer.ensures((a, b), x) && #[trigger] nearer.ensures((a, b), y) ==> x == y
    &&& forall|a: &H| !#[trigger] nearer.ensures((a, a), true)
    &&& forall|a: &H, b: &H, c: &H|
        #[trigger] nearer.ensures((a, b), true) && #[trigger] nearer.ensures((b, c), true)
            ==> nearer.ensures((a, c), true)
}

/// Hit `k` of `hits` is a nearest one: no hit is nearer than it.
pub open spec fn is_nearest<H, F: Fn(&H, &H) -> bool>(nearer: F, hits: Seq<H>, k: int) -> bool {
    &&& 0 <= k < hits.len()
    &&& forall|j: int|
        #![trigger hits[j]]
        0 <= j < hits.len() ==> !nearer.ensures((&hits[j], &hits[k]), true)
}

/// Picks the nearest of a scene's hits, scanning them in the scene's order:
/// the first hit is kept, and a later hit replaces the kept one only when
/// `nearer(later, kept)` says it is strictly nearer. Returns the position of
/// the hit kept, or `None` when there is none.
pub fn nearest_index<H, F: Fn(&H, &H) -> bool>(hits: &Vec<H>, nearer: F) -> (r: Option<usize>)
    requires
        forall|a: &H, b: &H| nearer.requires((a, b)),
        strict_order(nearer),
    ensures
        r is None <==> hits@.len() == 0,
        r matches Some(k) ==> {
            &&& is_nearest(nearer, hits@, k as int)
            &&& forall|j: int|
                #![trigger hits@[j]]
                k < j < hits@.len() ==> nearer.ensures((&hits@[j], &hits@[k as int]), false)
            &&& k > 0 ==> exists|p: int|
                #![trigger hits@[p]]
                0 <= p < k && nearer.ensures((&hits@[k as int], &hits@[p]), true)
        },
{
    if hits.len() == 0 {
        return None;
    }
    let mut kept: usize = 0;
    let mut i: usize = 1;
    while i < hits.len()
        invariant
            forall|a: &H, b: &H| nearer.requires((a, b)),
            strict_order(nearer),
            1 <= i <= hits@.len(),
            kept < i,
            forall|j: int|
                #![trigger hits@[j]]
                0 <= j < i ==> !nearer.ensures((&hits@[j], &hits@[kept as int]), true),
            forall|j: int|
                #![trigger hits@[j]]
                kept < j < i ==> nearer.ensures((&hits@[j], &hits@[kept as int]), false),
            kept > 0 ==> exists|p: int|
                #![trigger hits@[p]]
                0 <= p < kept && nearer.ensures((&hits@[kept as int], &hits@[p]), true),
        decreases hits@.len() - i,
    {
        let closer = nearer(&hits[i], &hits[kept]);
        if closer {
            proof {
                let p = kept as int;
                assert(0 <= p < i && nearer.ensures((&hits@[i as int], &hits@[p]), true));
                assert forall|j: int|
                    #![trigger hits@[j]]
                    0 <= j <= i implies !nearer.ensures((&hits@[j], &hits@[i as int]), true) by {
                    if nearer.ensures((&hits@[j], &hits@[i as int]), true) {
                        assert(nearer.ensures((&hits@[j], &hits@[p]), true));
                    }
                }
            }
            kept = i;
        } else {
            proof {
                assert(!nearer.ensures((&hits@[i as int], &hits@[kept as int]), true));
            }
        }
        i += 1;
    }
    Some(kept)
}

/// The nearest hit does not depend on the order of the hits: over two lists
/// holding the same hits, a nearest hit of one is neither nearer nor farther
/// than a nearest hit of the other.
pub proof fn lemma_nearest_order_free<H, F: Fn(&H, &H) -> bool>(
    nearer: F,
    hits: Seq<H>,
    other: Seq<H>,
    k: int,
    m: int,
)
    requires
        forall|x: H| hits.contains(x) <==> other.contains(x),
        is_nearest(nearer, hits, k),
        is_nearest(nearer, other, m),
    ensures
        !nearer.ensures((&hits[k], &other[m]), true),
        !nearer.ensures((&other[m], &hits[k]), true),
{
    assert(hits.contains(hits[k]));
    assert(other.contains(hits[k]));
    let j = choose|j: int| 0 <= j < other.len() && other[j] == hits[k];
    assert(!nearer.ensures((&other[j], &other[m]), true));
    assert(other.contains(other[m]));
    assert(hits.contains(other[m]));
    let q = choose|q: int| 0 <= q < hits.len() && hits[q] == other[m];
    assert(!nearer.ensures((&hits[q], &hits[k]), true));
}

} // verus!
