use vstd::prelude::*;

verus! {

/// `path` is a sequence of rays in which each ray after the first is a ray
/// that `step` may return, as the scattered ray, for the one before it.
pub open spec fn scatter_chain<R, F: Fn(&R) -> Option<R>>(step: F, path: Seq<R>) -> bool {
    forall|i: int|
        #![trigger path[i]]
        0 <= i < path.len() - 1 ==> step.ensures((&path[i],), Some(path[i + 1]))
}

/// Follows one light path from `ray` for at most `bounces` scattering events.
/// `step` intersects a ray with the scene: it returns the scattered ray on a
/// hit and `None` when the ray escapes. The result is the ray that escaped,
/// or `None` when the budget ran out first (the path is absorbed).
pub fn trace_path<R, F: Fn(&R) -> Option<R>>(ray: R, bounces: usize, step: F) -> (r: Option<R>)
    requires
        forall|x: &R| step.requires((x,)),
    ensures
        r matches Some(e) ==> exists|path: Seq<R>|
            #![trigger scatter_chain(step, path)]
            {
                &&& scatter_chain(step, path)
                &&& 1 <= path.len() <= bounces
                &&& path[0] == ray
                &&& path.last() == e
                &&& step.ensures((&e,), None::<R>)
            },
        r is None ==> exists|path: Seq<R>|
            #![trigger scatter_chain(step, path)]
            {
                &&& scatter_chain(step, path)
                &&& path.len() == bounces + 1
                &&& path[0] == ray
            },
{
    let ghost start = ray;
    let ghost mut path: Seq<R> = seq![ray];
    let mut current = ray;
    let mut n: usize = 0;
    while n < bounces
        invariant
            forall|x: &R| step.requires((x,)),
            0 <= n <= bounces,
            path.len() == n + 1,
            path[0] == start,
            start == ray,
            path.last() == current,
            scatter_chain(step, path),
        decreases bounces - n,
    {
        let outcome = step(&current);
        match outcome {
            Some(next) => {
                proof {
                    let old_path = path;
                    path = path.push(next);
                    assert forall|i: int|
                        #![trigger path[i]]
                        0 <= i < path.len() - 1 implies step.ensures(
                        (&path[i],),
                        Some(path[i + 1]),
                    ) by {
                        if i < old_path.len() - 1 {
                            assert(path[i] == old_path[i]);
                            assert(path[i + 1] == old_path[i + 1]);
                        }
                    }
                }
                current = next;
                n += 1;
            },
            None => {
                assert(scatter_chain(step, path) && 1 <= path.len() <= bounces);
                return Some(current);
            },
        }
    }
    None
}

} // verus!
