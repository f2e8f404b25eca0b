//! Escape-time iteration, generic over the orbit's point type.
use vstd::prelude::*;

verus! {

/// `orbit` witnesses an escape-time count of `count` from `start`: it holds
/// the first `count + 1` points of the orbit, each one `step` of the one
/// before; every point before the last was still `inside`; and when the count
/// stopped short of `max` the last point was not.
pub open spec fn is_escape_orbit<S, F: Fn(S) -> bool, G: Fn(S) -> S>(
    orbit: Seq<S>,
    start: S,
    count: nat,
    max: nat,
    inside: F,
    step: G,
) -> bool {
    &&& orbit.len() == count + 1
    &&& orbit[0] == start
    &&& forall|k: int| 0 <= k < count ==> #[trigger] inside.ensures((orbit[k],), true)
    &&& forall|k: int| 0 <= k < count ==> #[trigger] step.ensures((orbit[k],), orbit[k + 1])
    &&& count < max ==> inside.ensures((orbit[count as int],), false)
}

/// Escape-time count of the orbit `z0 = start`, `z(n+1) = step(zn)`: the
/// number of steps taken while fewer than `max_iterations` were taken and the
/// current point was `inside`. The escape-time ratio is the count divided by
/// `max_iterations`; it is 1 only when every one of the `max_iterations`
/// points tested was inside.
pub fn escape_count<S: Copy, F: Fn(S) -> bool, G: Fn(S) -> S>(
    start: S,
    max_iterations: u32,
    inside: F,
    step: G,
) -> (r: u32)
    requires
        forall|z: S| #[trigger] inside.requires((z,)),
        forall|z: S| #[trigger] step.requires((z,)),
    ensures
        r <= max_iterations,
        exists|orbit: Seq<S>|
            is_escape_orbit(orbit, start, r as nat, max_iterations as nat, inside, step),
{
    let mut z = start;
    let mut i: u32 = 0;
    let ghost mut orbit: Seq<S> = seq![start];
    while i < max_iterations
        invariant
            forall|p: S| #[trigger] inside.requires((p,)),
            forall|p: S| #[trigger] step.requires((p,)),
            i <= max_iterations,
            orbit.len() == i + 1,
            orbit[0] == start,
            orbit[i as int] == z,
            forall|k: int| 0 <= k < i ==> #[trigger] inside.ensures((orbit[k],), true),
            forall|k: int| 0 <= k < i ==> #[trigger] step.ensures((orbit[k],), orbit[k + 1]),
        ensures
            i <= max_iterations,
            orbit.len() == i + 1,
            orbit[0] == start,
            forall|k: int| 0 <= k < i ==> #[trigger] inside.ensures((orbit[k],), true),
            forall|k: int| 0 <= k < i ==> #[trigger] step.ensures((orbit[k],), orbit[k + 1]),
            i < max_iterations ==> inside.ensures((orbit[i as int],), false),
        decreases max_iterations - i,
    {
        let still_inside = inside(z);
        if !still_inside {
            break;
        }
        let next = step(z);
        proof {
            orbit = orbit.push(next);
        }
        z = next;
        i = i + 1;
    }
    assert(is_escape_orbit(orbit, start, i as nat, max_iterations as nat, inside, step));
    i
}

} // verus!
