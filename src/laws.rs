//! Properties that relate several operations of the explorer.
use vstd::prelude::*;

use crate::colour::grey;
use crate::engine::{Direction, RenderState};
use crate::escape::is_escape_orbit;

verus! {

/// Every cached escape-time ratio `count / max_iterations` lies in `[0, 1]`,
/// so its grey level is a byte, and a pixel whose orbit survived every
/// iteration (ratio 1) is white.
pub proof fn lemma_ratio_in_unit_interval(s: RenderState, k: int)
    requires
        s.wf(),
        0 <= k < s.cache.len(),
    ensures
        0 <= s.cache[k] <= s.max_iterations,
        0 <= grey(s.cache[k] as int, s.max_iterations as int) <= 255,
        s.cache[k] == s.max_iterations ==> grey(s.cache[k] as int, s.max_iterations as int) == 255,
{
    let c = s.cache[k] as int;
    let m = s.max_iterations as int;
    assert(0 <= c <= m);
    assert(0 <= (510 * c + m) / (2 * m) <= 255) by (nonlinear_arith)
        requires
            0 <= c <= m,
            0 < m,
    ;
    if c == m {
        assert((510 * c + m) / (2 * m) == 255) by (nonlinear_arith)
            requires
                c == m,
                0 < m,
        ;
    }
}

/// Drawing twice with no change in between gives the same bytes and the
/// same state, whether or not the first draw found the cache dirty: the first
/// draw leaves the cache clean, the second reads no counts, and the frame
/// covers the whole buffer of four bytes per pixel.
pub proof fn lemma_redraw_identical(s: RenderState, counts: Seq<u32>, later: Seq<u32>)
    requires
        s.wf(),
        s.counts_fit(counts),
    ensures
        s.drawn(counts).wf(),
        !s.drawn(counts).changed,
        s.drawn(counts).counts_fit(later),
        s.drawn(counts).drawn(later) == s.drawn(counts),
        s.drawn(counts).drawn(later).frame() == s.drawn(counts).frame(),
        s.drawn(counts).frame().len() == 4 * s.pixels(),
{
}

/// After a resize, the next draw recomputes: the cache then holds exactly one
/// fresh value per pixel of the new viewport and nothing of the old one, and
/// the frame is built from it.
pub proof fn lemma_resize_then_draw(s: RenderState, width: u32, height: u32, counts: Seq<u32>)
    requires
        s.wf(),
        0 < width,
        0 < height,
        width as int * height as int <= usize::MAX,
        counts.len() == width as int * height as int,
        forall|k: int| 0 <= k < counts.len() ==> #[trigger] counts[k] <= s.max_iterations,
    ensures
        s.resized_to(width, height).wf(),
        s.resized_to(width, height).changed,
        s.resized_to(width, height).counts_fit(counts),
        s.resized_to(width, height).drawn(counts) == s.resized_to(width, height).updated_with(counts),
        s.resized_to(width, height).drawn(counts).wf(),
        s.resized_to(width, height).drawn(counts).cache == counts,
        s.resized_to(width, height).drawn(counts).cache.len() == width as int * height as int,
        s.resized_to(width, height).drawn(counts).frame().len() == 4 * (width as int * height as int),
{
}

/// Opposite pan commands cancel: their unit moves sum to zero, and the state
/// after both is the state after one.
pub proof fn lemma_pan_opposite_cancels(s: RenderState, d: Direction)
    ensures
        d.unit().0 + d.opposite().unit().0 == 0,
        d.unit().1 + d.opposite().unit().1 == 0,
        s.panned().panned() == s.panned(),
{
}

/// Zooming in and then out restores the zoom exactly, and so does zooming
/// out and then in; only the image is marked out of date.
pub proof fn lemma_zoom_in_out_restores(s: RenderState)
    requires
        i32::MIN < s.zoom_level < i32::MAX,
    ensures
        s.zoomed_in().zoomed_out().zoom_level == s.zoom_level,
        s.zoomed_out().zoomed_in().zoom_level == s.zoom_level,
        s.zoomed_in().zoomed_out() == s.panned(),
        s.zoomed_out().zoomed_in() == s.panned(),
{
}

/// An escape-time count reaches the bound (ratio 1) only when every one of
/// the `max` points tested stayed inside; a smaller count means the orbit
/// left at exactly that step.
pub proof fn lemma_full_count_means_no_escape<S, F: Fn(S) -> bool, G: Fn(S) -> S>(
    orbit: Seq<S>,
    start: S,
    count: nat,
    max: nat,
    inside: F,
    step: G,
)
    requires
        is_escape_orbit(orbit, start, count, max, inside, step),
    ensures
        count == max ==> forall|k: int| 0 <= k < max ==> #[trigger] inside.ensures((orbit[k],), true),
        count < max ==> inside.ensures((orbit[count as int],), false),
{
}

/// Every point of an escape orbit up to `k` is `start` when `start` is a
/// fixed point of `step`.
proof fn lemma_orbit_stays_at_fixed_point<S, F: Fn(S) -> bool, G: Fn(S) -> S>(
    orbit: Seq<S>,
    start: S,
    count: nat,
    max: nat,
    inside: F,
    step: G,
    k: int,
)
    requires
        is_escape_orbit(orbit, start, count, max, inside, step),
        forall|z: S| #[trigger] step.ensures((start,), z) ==> z == start,
        0 <= k <= count,
    ensures
        orbit[k] == start,
    decreases k,
{
    if k > 0 {
        lemma_orbit_stays_at_fixed_point(orbit, start, count, max, inside, step, k - 1);
        assert(step.ensures((orbit[k - 1],), orbit[k - 1 + 1]));
    }
}

/// A start point that `step` keeps fixed and that is inside never escapes:
/// its count is the full bound (ratio 1). For the Mandelbrot map this is the
/// origin, `c = 0`, with `z = 0` kept at 0 and `|0| < 2`.
pub proof fn lemma_fixed_inside_point_never_escapes<S, F: Fn(S) -> bool, G: Fn(S) -> S>(
    orbit: Seq<S>,
    start: S,
    count: nat,
    max: nat,
    inside: F,
    step: G,
)
    requires
        is_escape_orbit(orbit, start, count, max, inside, step),
        count <= max,
        forall|z: S| #[trigger] step.ensures((start,), z) ==> z == start,
        forall|b: bool| #[trigger] inside.ensures((start,), b) ==> b,
    ensures
        count == max,
{
    if count < max {
        lemma_orbit_stays_at_fixed_point(orbit, start, count, max, inside, step, count as int);
        assert(inside.ensures((orbit[count as int],), false));
    }
}

/// A start point that is inside and whose first step lands outside has
/// count 1, below any bound of at least 2. For the Mandelbrot map this is
/// `c = 2`: from `z = 0` one step gives `z = 2`, and `|2| < 2` fails.
pub proof fn lemma_escape_after_one_step<S, F: Fn(S) -> bool, G: Fn(S) -> S>(
    orbit: Seq<S>,
    start: S,
    count: nat,
    max: nat,
    inside: F,
    step: G,
    first: S,
)
    requires
        is_escape_orbit(orbit, start, count, max, inside, step),
        2 <= max,
        forall|b: bool| #[trigger] inside.ensures((start,), b) ==> b,
        forall|z: S| #[trigger] step.ensures((start,), z) ==> z == first,
        forall|b: bool| #[trigger] inside.ensures((first,), b) ==> !b,
    ensures
        count == 1,
        count < max,
{
    if count == 0 {
        assert(inside.ensures((orbit[0],), false));
    } else if count >= 2 {
        assert(step.ensures((orbit[0int],), orbit[0int + 1]));
        assert(inside.ensures((orbit[1],), true));
    }
}

/// An escape orbit agrees with any other run of `step` from `start`, up to
/// where both reach, when `step` has one result per point.
proof fn lemma_orbit_follows_path<S, F: Fn(S) -> bool, G: Fn(S) -> S>(
    orbit: Seq<S>,
    path: Seq<S>,
    start: S,
    count: nat,
    max: nat,
    inside: F,
    step: G,
    k: int,
)
    requires
        is_escape_orbit(orbit, start, count, max, inside, step),
        path.len() > 0,
        path[0] == start,
        forall|j: int| 0 <= j < path.len() - 1 ==> #[trigger] step.ensures((path[j],), path[j + 1]),
        forall|z: S, a: S, b: S| #![trigger step.ensures((z,), a), step.ensures((z,), b)]
            step.ensures((z,), a) && step.ensures((z,), b) ==> a == b,
        0 <= k <= count,
        k < path.len(),
    ensures
        orbit[k] == path[k],
    decreases k,
{
    if k > 0 {
        lemma_orbit_follows_path(orbit, path, start, count, max, inside, step, k - 1);
        assert(step.ensures((orbit[k - 1],), orbit[k - 1 + 1]));
        assert(step.ensures((path[k - 1],), path[k - 1 + 1]));
    }
}

/// Conversely, with a `step` and an `inside` that each give one result per
/// point, the count reaches the bound (ratio 1) when the first `max` points
/// of the orbit are all inside.
pub proof fn lemma_no_escape_means_full_count<S, F: Fn(S) -> bool, G: Fn(S) -> S>(
    orbit: Seq<S>,
    path: Seq<S>,
    start: S,
    count: nat,
    max: nat,
    inside: F,
    step: G,
)
    requires
        is_escape_orbit(orbit, start, count, max, inside, step),
        count <= max,
        path.len() == max,
        max > 0 ==> path[0] == start,
        forall|j: int| 0 <= j < path.len() - 1 ==> #[trigger] step.ensures((path[j],), path[j + 1]),
        forall|j: int| 0 <= j < path.len() ==> #[trigger] inside.ensures((path[j],), true),
        forall|z: S, a: S, b: S| #![trigger step.ensures((z,), a), step.ensures((z,), b)]
            step.ensures((z,), a) && step.ensures((z,), b) ==> a == b,
        forall|z: S| !(#[trigger] inside.ensures((z,), true) && inside.ensures((z,), false)),
    ensures
        count == max,
{
    if count < max {
        lemma_orbit_follows_path(orbit, path, start, count, max, inside, step, count as int);
        assert(inside.ensures((path[count as int],), true));
        assert(inside.ensures((orbit[count as int],), false));
    }
}

} // verus!
