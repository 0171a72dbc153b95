//! How component values change through the caller's arithmetic.
//!
//! The store never computes with the numbers it holds. A system that has to
//! add, subtract or multiply them is handed the operations, and its contract
//! states the outcome through what those operations promise of their results.

use vstd::prelude::*;

use super::components::Vec3;

verus! {

/// `sum` is `a` and `b` added coordinate by coordinate through `plus`.
pub open spec fn sums_to<S, Add: Fn(S, S) -> S>(plus: Add, a: Vec3<S>, b: Vec3<S>, sum: Vec3<S>) -> bool {
    &&& plus.ensures((a.x, b.x), sum.x)
    &&& plus.ensures((a.y, b.y), sum.y)
    &&& plus.ensures((a.z, b.z), sum.z)
}

/// While its key is held, a coordinate moves by `speed` times `dt`, which `op`
/// adds to it or takes from it: `after` is the result of that step on `before`.
/// While the key is not held, the coordinate stays.
pub open spec fn nudged<S, Op: Fn(S, S) -> S, Mul: Fn(S, S) -> S>(
    op: Op,
    times: Mul,
    dt: S,
    speed: S,
    held: bool,
    before: S,
    after: S,
) -> bool {
    if held {
        exists|step: S| times.ensures((speed, dt), step) && op.ensures((before, step), after)
    } else {
        after == before
    }
}

/// `half` is `whole` halved coordinate by coordinate through `halve`.
pub open spec fn halves_to<S, Half: Fn(S) -> S>(halve: Half, whole: Vec3<S>, half: Vec3<S>) -> bool {
    &&& halve.ensures((whole.x,), half.x)
    &&& halve.ensures((whole.y,), half.y)
    &&& halve.ensures((whole.z,), half.z)
}

/// `offset` lies in the plane of the screen, half of `size` away from the
/// origin along `x` and along `y`; its `z` is `zero`.
pub open spec fn recenters<S, Half: Fn(S) -> S>(
    halve: Half,
    zero: S,
    size: Vec3<S>,
    offset: Vec3<S>,
) -> bool {
    &&& halve.ensures((size.x,), offset.x)
    &&& halve.ensures((size.y,), offset.y)
    &&& offset.z == zero
}

/// Adds `a` and `b` coordinate by coordinate.
pub fn sum<S: Copy, Add: Fn(S, S) -> S>(plus: &Add, a: Vec3<S>, b: Vec3<S>) -> (sum: Vec3<S>)
    requires
        forall|p: S, q: S| plus.requires((p, q)),
    ensures
        sums_to(*plus, a, b, sum),
{
    Vec3 { x: plus(a.x, b.x), y: plus(a.y, b.y), z: plus(a.z, b.z) }
}

/// Moves one coordinate by `speed` times `dt` through `op` while its key is
/// held.
pub fn nudge<S: Copy, Op: Fn(S, S) -> S, Mul: Fn(S, S) -> S>(
    op: &Op,
    times: &Mul,
    dt: S,
    speed: S,
    held: bool,
    before: S,
) -> (after: S)
    requires
        forall|p: S, q: S| op.requires((p, q)),
        forall|p: S, q: S| times.requires((p, q)),
    ensures
        nudged(*op, *times, dt, speed, held, before, after),
{
    if held {
        let step = times(speed, dt);
        op(before, step)
    } else {
        before
    }
}

} // verus!
