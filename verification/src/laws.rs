//! Global properties of the simulation, stated and proved over the
//! mathematical model that the executable contracts are written against.

use vstd::prelude::*;

use crate::grid::GridView;
use crate::player::{
    ceiling_hit, corners_of, damp, left_hit, mag, right_hit, spec_decelerate, spec_floor,
    spec_left, spec_move, spec_pressed, spec_resolve, spec_right, spec_update, InputIntent,
    PlayerView, UNIT,
};

verus! {

/// `n` friction steps applied in sequence.
pub open spec fn decelerate_iter(p: PlayerView, n: nat) -> PlayerView
    decreases n,
{
    if n == 0 {
        p
    } else {
        spec_decelerate(decelerate_iter(p, (n - 1) as nat))
    }
}

proof fn lemma_iter_shift(p: PlayerView, n: nat)
    ensures
        decelerate_iter(p, n + 1) == decelerate_iter(spec_decelerate(p), n),
    decreases n,
{
    if n == 0 {
        assert(decelerate_iter(p, 1) == spec_decelerate(decelerate_iter(p, 0)));
        assert(decelerate_iter(spec_decelerate(p), 0) == spec_decelerate(p));
    } else {
        lemma_iter_shift(p, (n - 1) as nat);
        assert(decelerate_iter(p, n + 1) == spec_decelerate(decelerate_iter(p, n)));
        assert(decelerate_iter(spec_decelerate(p), n) == spec_decelerate(
            decelerate_iter(spec_decelerate(p), (n - 1) as nat),
        ));
    }
}

/// One friction step on a speed strictly above the friction coefficient
/// strictly reduces the speed, provided the coefficient is at most one world
/// unit, and changes nothing else.
proof fn lemma_decelerate_decreases(p: PlayerView)
    requires
        0 < p.rules.friction <= UNIT,
        mag(p.vel.x) > p.rules.friction,
    ensures
        mag(spec_decelerate(p).vel.x) < mag(p.vel.x),
        spec_decelerate(p).state == p.state,
        spec_decelerate(p).rules == p.rules,
        spec_decelerate(p).pos == p.pos,
        spec_decelerate(p).size == p.size,
        spec_decelerate(p).vel.y == p.vel.y,
{
    let f = p.rules.friction;
    let v = p.vel.x;
    let a = mag(v);
    let half: int = (UNIT as int) / 2;
    let u = (a + half) / (UNIT as int);
    vstd::arithmetic::div_mod::lemma_fundamental_div_mod(a + half, UNIT as int);
    vstd::arithmetic::div_mod::lemma_mod_bound(a + half, UNIT as int);
    if u <= 1 {
        // the scale is 1 and the step is the friction coefficient itself
        assert(f * 1 == f) by (nonlinear_arith);
        assert(1 <= f * crate::player::friction_scale(v) <= a - 1);
    } else {
        // a + half == UNIT * u + r with 0 <= r < UNIT, so the step is at
        // most a + half, and u >= 2 forces a >= 3 * half
        assert(f * u <= (UNIT as int) * u && 2 <= u <= f * u) by (nonlinear_arith)
            requires
                1 <= f <= UNIT as int,
                2 <= u,
        ;
        assert(1 <= f * crate::player::friction_scale(v) <= 2 * a - 1);
    }
}

/// Friction convergence: a walking actor with a positive friction
/// coefficient of at most one world unit reaches zero horizontal velocity
/// and the stopped state within a number of friction steps bounded by its
/// initial speed.
pub proof fn lemma_friction_convergence(p: PlayerView)
    requires
        p.state is Walking,
        0 < p.rules.friction <= UNIT,
    ensures
        exists|n: nat|
            1 <= n <= mag(p.vel.x) + 1 && (#[trigger] decelerate_iter(p, n)).vel.x == 0
                && decelerate_iter(p, n).state is Stopped,
    decreases mag(p.vel.x),
{
    if mag(p.vel.x) <= p.rules.friction {
        let n1: nat = 1;
        assert(decelerate_iter(p, n1) == spec_decelerate(decelerate_iter(p, 0)));
        assert(decelerate_iter(p, n1).vel.x == 0 && decelerate_iter(p, n1).state is Stopped);
    } else {
        lemma_decelerate_decreases(p);
        let q = spec_decelerate(p);
        lemma_friction_convergence(q);
        let n2 = choose|n: nat|
            1 <= n <= mag(q.vel.x) + 1 && (#[trigger] decelerate_iter(q, n)).vel.x == 0
                && decelerate_iter(q, n).state is Stopped;
        lemma_iter_shift(p, n2);
        let n3: nat = n2 + 1;
        assert(decelerate_iter(p, n3) == decelerate_iter(q, n2));
        assert(1 <= n3 <= mag(p.vel.x) + 1 && decelerate_iter(p, n3).vel.x == 0
            && decelerate_iter(p, n3).state is Stopped);
    }
}

/// Jump idempotence in air: a jump intent while falling changes nothing.
pub proof fn lemma_jump_in_air(p: PlayerView)
    requires
        p.state is Falling,
    ensures
        spec_pressed(p, InputIntent::Jump) == p,
{
}

/// Floor landing determinism: on the tick a falling, downward-moving actor
/// first penetrates a not-fully-passable lower row, its bottom edge is
/// snapped exactly onto that row's top edge (no penetration, no gap) and the
/// state becomes walking.
pub proof fn lemma_floor_landing(p: PlayerView, m: GridView)
    requires
        m.wf(),
        0 < p.size <= m.cell,
        p.state is Falling,
        p.vel.y + p.rules.gravity > 0,
        ({
            let q = spec_move(p);
            let k = corners_of(m, q.pos.x, q.pos.y);
            &&& !(m.passable_at(k.row2, k.col1) && m.passable_at(k.row2, k.col2))
            &&& q.pos.y + q.size > k.row2 * m.cell
            &&& 1 <= k.row2
        }),
    ensures
        ({
            let q = spec_move(p);
            let k = corners_of(m, q.pos.x, q.pos.y);
            &&& spec_update(p, m).pos.y + p.size == k.row2 * m.cell
            &&& spec_update(p, m).state is Walking
        }),
{
    let q = spec_move(p);
    let k = corners_of(m, q.pos.x, q.pos.y);
    let p1 = spec_floor(q, m, k);
    assert(q.state is Falling && q.size == p.size && q.vel.y == p.vel.y + p.rules.gravity);
    assert(p1.state is Walking && p1.pos.y == k.row2 * m.cell - p.size);
    assert(!ceiling_hit(p1, m, k));
    let p3 = spec_left(spec_right(p1, m, k), m, k);
    assert(p3.pos.y == p1.pos.y && p3.state == p1.state && p3.size == p1.size);
    assert(1 * m.cell <= k.row2 * m.cell && k.row2 * m.cell <= (m.height - 1) * m.cell && (m.height
        - 1) * m.cell + m.cell == m.height * m.cell) by (nonlinear_arith)
        requires
            1 <= k.row2 <= m.height - 1,
            0 < m.cell,
    ;
}

/// Whether the actor lies inside the world bounds.
pub open spec fn in_bounds(p: PlayerView, m: GridView) -> bool {
    &&& 0 <= p.pos.x
    &&& p.pos.x + p.size <= m.width * m.cell
    &&& 0 <= p.pos.y
    &&& p.pos.y + p.size <= m.height * m.cell
}

/// Bounds containment: after a tick the actor lies inside the world on both
/// axes. The world-bounds clamp corrects only the first violated boundary
/// and the ceiling response skips the clamp entirely, so the property is
/// proved for the ticks without a ceiling short-circuit in which at most one
/// axis is out of bounds when the clamp runs.
pub proof fn lemma_bounds_containment(p: PlayerView, m: GridView)
    requires
        m.wf(),
        0 < p.size,
        p.size <= m.width * m.cell,
        p.size <= m.height * m.cell,
        ({
            let q = spec_move(p);
            let k = corners_of(m, q.pos.x, q.pos.y);
            let p1 = spec_floor(q, m, k);
            let p3 = spec_left(spec_right(p1, m, k), m, k);
            &&& !ceiling_hit(p1, m, k)
            &&& !((p3.pos.x < 0 || p3.pos.x + p3.size > m.width * m.cell) && (p3.pos.y < 0
                || p3.pos.y + p3.size > m.height * m.cell))
        }),
    ensures
        in_bounds(spec_update(p, m), m),
{
    let q = spec_move(p);
    let k = corners_of(m, q.pos.x, q.pos.y);
    let p1 = spec_floor(q, m, k);
    let p3 = spec_left(spec_right(p1, m, k), m, k);
    assert(p3.size == p.size);
}

/// Bounce damping: an actor colliding rightward into a wall rebounds at
/// exactly a quarter of its impact speed in the opposite direction, snapped
/// onto the wall face. The rebound leaves the horizontal velocity
/// non-positive, so the same contact cannot fire again on a later tick
/// without new rightward input: the damping applies once per contact event.
pub proof fn lemma_bounce_damping(p: PlayerView, m: GridView)
    requires
        m.wf(),
        0 < p.size <= m.cell,
        ({
            let k = corners_of(m, p.pos.x, p.pos.y);
            let p1 = spec_floor(p, m, k);
            &&& 1 <= k.col2
            &&& !ceiling_hit(p1, m, k)
            &&& right_hit(p1, m, k)
            &&& !left_hit(spec_right(p1, m, k), m, k)
        }),
    ensures
        ({
            let k = corners_of(m, p.pos.x, p.pos.y);
            let u = spec_resolve(p, m);
            &&& u.vel.x == damp(p.vel.x)
            &&& u.vel.x == -(p.vel.x / 4)
            &&& mag(u.vel.x) == p.vel.x / 4
            &&& u.vel.x <= 0
            &&& u.pos.x == k.col2 * m.cell - p.size
        }),
{
    let k = corners_of(m, p.pos.x, p.pos.y);
    let p1 = spec_floor(p, m, k);
    let p2 = spec_right(p1, m, k);
    assert(p1.vel.x == p.vel.x && p1.size == p.size);
    assert(p.vel.x > 0);
    vstd::arithmetic::div_mod::lemma_div_pos_is_pos(p.vel.x, 4);
    assert(1 * m.cell <= k.col2 * m.cell && k.col2 * m.cell <= (m.width - 1) * m.cell && (m.width
        - 1) * m.cell + m.cell == m.width * m.cell) by (nonlinear_arith)
        requires
            1 <= k.col2 <= m.width - 1,
            0 < m.cell,
    ;
    assert(0 <= p2.pos.x && p2.pos.x + p2.size <= m.width * m.cell);
}

} // verus!
