//! The simulated actor: its kinematic state, the movement state machine,
//! and the per-tick collision resolver.
//!
//! All quantities are fixed-point integers with [`UNIT`] sub-steps per world
//! unit. The vertical axis grows downward: gravity adds to `vel.y`, a jump
//! sets `vel.y` to minus the jump impulse.

use vstd::prelude::*;

use crate::grid::{GridView, TileGrid, MAX_CELL_SIZE, MAX_GRID_CELLS};

verus! {

/// Fixed-point sub-steps per world unit.
pub const UNIT: i64 = 100;

/// Horizontal impulse of the first step out of standstill: 1.5 world units.
pub const WALK_START_IMPULSE: i64 = 150;

/// Horizontal impulse of a step while already walking or airborne: 1 world unit.
pub const MOVE_IMPULSE: i64 = 100;

/// Magnitude bound on positions accepted by `update`.
pub const POS_LIMIT: i64 = 1_000_000_000_000;

/// Magnitude bound on velocities accepted by `update`.
pub const VEL_LIMIT: i64 = 1_000_000_000;

/// Magnitude bound on the rule coefficients (friction, gravity, jump impulse).
pub const RULE_LIMIT: i64 = 1_000_000_000;

/// Magnitude bound on the actor's extent.
pub const EXTENT_LIMIT: i64 = 1_000_000_000;

/// Magnitude bound on velocities accepted by the collision resolver alone;
/// one friction step from within `VEL_LIMIT` always stays inside it.
pub const RESOLVE_VEL_LIMIT: i64 = 100_000_000_000_000_000;

/// The three movement states of the controller.
#[derive(Clone, Copy, PartialEq, Eq, Structural, Debug)]
pub enum PlayerState {
    Stopped,
    Walking,
    Falling,
}

/// A directional input intent, decoded from raw button events by the caller.
#[derive(Clone, Copy, PartialEq, Eq, Structural, Debug)]
pub enum InputIntent {
    MoveLeft,
    MoveRight,
    Jump,
}

/// The axis a collision response acts along.
#[derive(Clone, Copy, PartialEq, Eq, Structural, Debug)]
pub enum Direction {
    Up,
    Down,
    Left,
    Right,
}

/// Top-left corner of the actor, in sub-steps.
#[derive(Clone, Copy, PartialEq, Eq, Structural, Debug)]
pub struct Position {
    pub x: i64,
    pub y: i64,
}

/// Velocity of the actor, in sub-steps per tick.
#[derive(Clone, Copy, PartialEq, Eq, Structural, Debug)]
pub struct Velocity {
    pub x: i64,
    pub y: i64,
}

/// Tunable movement coefficients, fixed at construction time.
/// `max_velocity` is carried as configuration but not enforced anywhere.
#[derive(Clone, Copy, PartialEq, Eq, Structural, Debug)]
pub struct PlayerMovement {
    pub friction: i64,
    pub max_velocity: Velocity,
    pub gravity: i64,
    pub jump_impulse: i64,
}

/// The actor: a square of side `size` with a position, a velocity, a
/// movement state, and its movement rules.
#[derive(Clone, Copy, PartialEq, Eq, Structural, Debug)]
pub struct Player {
    pub size: i64,
    pub state: PlayerState,
    pub pos: Position,
    pub vel: Velocity,
    pub rules: PlayerMovement,
}

/// A pair of mathematical coordinates.
pub ghost struct Vec2 {
    pub x: int,
    pub y: int,
}

/// The mathematical model of the movement rules.
pub ghost struct RulesView {
    pub friction: int,
    pub max_velocity: Vec2,
    pub gravity: int,
    pub jump_impulse: int,
}

/// The mathematical model of the actor.
pub ghost struct PlayerView {
    pub size: int,
    pub state: PlayerState,
    pub pos: Vec2,
    pub vel: Vec2,
    pub rules: RulesView,
}

impl View for Position {
    type V = Vec2;

    open spec fn view(&self) -> Vec2 {
        Vec2 { x: self.x as int, y: self.y as int }
    }
}

impl View for Velocity {
    type V = Vec2;

    open spec fn view(&self) -> Vec2 {
        Vec2 { x: self.x as int, y: self.y as int }
    }
}

impl View for PlayerMovement {
    type V = RulesView;

    open spec fn view(&self) -> RulesView {
        RulesView {
            friction: self.friction as int,
            max_velocity: self.max_velocity@,
            gravity: self.gravity as int,
            jump_impulse: self.jump_impulse as int,
        }
    }
}

impl View for Player {
    type V = PlayerView;

    open spec fn view(&self) -> PlayerView {
        PlayerView {
            size: self.size as int,
            state: self.state,
            pos: self.pos@,
            vel: self.vel@,
            rules: self.rules@,
        }
    }
}

/// The magnitude of `v`.
pub open spec fn mag(v: int) -> int {
    if v < 0 {
        -v
    } else {
        v
    }
}

/// A damped rebound: the sign flips and a quarter of the magnitude remains
/// (rounded toward zero).
pub open spec fn damp(v: int) -> int {
    if v >= 0 {
        -(v / 4)
    } else {
        (-v) / 4
    }
}

/// The friction scale factor: the speed rounded to whole world units, or 1
/// where it rounds to 0. Deceleration is proportional to it.
pub open spec fn friction_scale(v: int) -> int {
    let units = (mag(v) + UNIT / 2) / (UNIT as int);
    if units == 0 {
        1
    } else {
        units
    }
}

/// One friction step: horizontal velocity at or below the friction
/// coefficient snaps to zero (walking becomes stopped); otherwise
/// `friction * friction_scale` is subtracted against the direction of travel.
pub open spec fn spec_decelerate(p: PlayerView) -> PlayerView {
    let f = p.rules.friction;
    let v = p.vel.x;
    if mag(v) <= f {
        PlayerView {
            vel: Vec2 { x: 0, y: p.vel.y },
            state: if p.state is Walking {
                PlayerState::Stopped
            } else {
                p.state
            },
            ..p
        }
    } else if v > f {
        PlayerView { vel: Vec2 { x: v - f * friction_scale(v), y: p.vel.y }, ..p }
    } else {
        PlayerView { vel: Vec2 { x: v + f * friction_scale(v), y: p.vel.y }, ..p }
    }
}

/// A jump: from the ground it sets the vertical velocity to minus the jump
/// impulse and starts falling; in the air it does nothing.
pub open spec fn spec_jump(p: PlayerView) -> PlayerView {
    if p.state is Falling {
        p
    } else {
        PlayerView {
            vel: Vec2 { x: p.vel.x, y: -p.rules.jump_impulse },
            state: PlayerState::Falling,
            ..p
        }
    }
}

/// The input transition table of the movement state machine.
pub open spec fn spec_pressed(p: PlayerView, intent: InputIntent) -> PlayerView {
    match p.state {
        PlayerState::Stopped => match intent {
            InputIntent::MoveRight => PlayerView {
                vel: Vec2 { x: p.vel.x + WALK_START_IMPULSE, y: p.vel.y },
                state: PlayerState::Walking,
                ..p
            },
            InputIntent::MoveLeft => PlayerView {
                vel: Vec2 { x: p.vel.x - WALK_START_IMPULSE, y: p.vel.y },
                state: PlayerState::Walking,
                ..p
            },
            InputIntent::Jump => spec_jump(p),
        },
        PlayerState::Walking => match intent {
            InputIntent::MoveRight => PlayerView {
                vel: Vec2 { x: p.vel.x + MOVE_IMPULSE, y: p.vel.y },
                ..p
            },
            InputIntent::MoveLeft => PlayerView {
                vel: Vec2 { x: p.vel.x - MOVE_IMPULSE, y: p.vel.y },
                ..p
            },
            InputIntent::Jump => spec_jump(p),
        },
        PlayerState::Falling => match intent {
            InputIntent::MoveRight => PlayerView {
                vel: Vec2 { x: p.vel.x + MOVE_IMPULSE, y: p.vel.y },
                ..p
            },
            InputIntent::MoveLeft => PlayerView {
                vel: Vec2 { x: p.vel.x - MOVE_IMPULSE, y: p.vel.y },
                ..p
            },
            InputIntent::Jump => p,
        },
    }
}

/// The integration half of a tick, before collision resolution: stopped
/// zeroes the velocity; walking integrates and applies friction; falling
/// first accumulates gravity, then integrates and applies friction.
pub open spec fn spec_move(p: PlayerView) -> PlayerView {
    match p.state {
        PlayerState::Stopped => PlayerView { vel: Vec2 { x: 0, y: 0 }, ..p },
        PlayerState::Walking => spec_decelerate(
            PlayerView { pos: Vec2 { x: p.pos.x + p.vel.x, y: p.pos.y + p.vel.y }, ..p },
        ),
        PlayerState::Falling => {
            let vy = p.vel.y + p.rules.gravity;
            spec_decelerate(
                PlayerView {
                    vel: Vec2 { x: p.vel.x, y: vy },
                    pos: Vec2 { x: p.pos.x + p.vel.x, y: p.pos.y + vy },
                    ..p
                },
            )
        },
    }
}

/// The rows and columns of the four tiles sampled around the actor.
pub ghost struct Corners {
    pub row1: int,
    pub col1: int,
    pub row2: int,
    pub col2: int,
}

/// `i` clamped into `[0, last]`.
pub open spec fn clamp_index(i: int, last: int) -> int {
    if i < 0 {
        0
    } else if i > last {
        last
    } else {
        i
    }
}

/// The cells of the actor's top-left corner and of the next row and column,
/// each clamped to the grid's last valid index.
pub open spec fn corners_of(m: GridView, x: int, y: int) -> Corners {
    let c1 = clamp_index(x / m.cell, m.width - 1);
    let r1 = clamp_index(y / m.cell, m.height - 1);
    Corners {
        row1: r1,
        col1: c1,
        row2: clamp_index(r1 + 1, m.height - 1),
        col2: clamp_index(c1 + 1, m.width - 1),
    }
}

/// The floor probe: with both tiles under the actor passable the state
/// becomes falling; otherwise a falling actor lands (walking), and a bottom
/// edge penetrating the lower tile's top edge is snapped onto it.
pub open spec fn spec_floor(p: PlayerView, m: GridView, k: Corners) -> PlayerView {
    if m.passable_at(k.row2, k.col1) && m.passable_at(k.row2, k.col2) {
        PlayerView { state: PlayerState::Falling, ..p }
    } else {
        let p1 = if p.state is Falling {
            PlayerView { state: PlayerState::Walking, ..p }
        } else {
            p
        };
        if p1.pos.y + p1.size > k.row2 * m.cell {
            PlayerView { pos: Vec2 { x: p1.pos.x, y: k.row2 * m.cell - p1.size }, ..p1 }
        } else {
            p1
        }
    }
}

/// Whether the ceiling check fires: the actor moves upward and a tile of the
/// upper row is solid.
pub open spec fn ceiling_hit(p: PlayerView, m: GridView, k: Corners) -> bool {
    p.vel.y < 0 && (!m.passable_at(k.row1, k.col1) || !m.passable_at(k.row1, k.col2))
}

/// The ceiling response: the actor is pushed below the upper row and its
/// vertical velocity rebounds damped. It short-circuits the rest of the
/// resolver for this tick.
pub open spec fn spec_ceiling(p: PlayerView, m: GridView, k: Corners) -> PlayerView {
    PlayerView {
        pos: Vec2 { x: p.pos.x, y: (k.row1 + 1) * m.cell },
        vel: Vec2 { x: p.vel.x, y: damp(p.vel.y) },
        ..p
    }
}

/// Whether the right-side check fires: moving right, the right edge past the
/// sampled column's left edge, and the relevant corner solid (the lower-right
/// tile counts only while the bottom edge reaches below its top).
pub open spec fn right_hit(p: PlayerView, m: GridView, k: Corners) -> bool {
    &&& p.vel.x > 0
    &&& p.pos.x + p.size > k.col2 * m.cell
    &&& {
        let below = p.pos.y + p.size > k.row2 * m.cell;
        if below {
            !m.passable_at(k.row1, k.col2) || !m.passable_at(k.row2, k.col2)
        } else {
            !m.passable_at(k.row1, k.col2)
        }
    }
}

/// The right-side response: snap the right edge onto the wall face and
/// rebound the horizontal velocity damped.
pub open spec fn spec_right(p: PlayerView, m: GridView, k: Corners) -> PlayerView {
    if right_hit(p, m, k) {
        PlayerView {
            pos: Vec2 { x: k.col2 * m.cell - p.size, y: p.pos.y },
            vel: Vec2 { x: damp(p.vel.x), y: p.vel.y },
            ..p
        }
    } else {
        p
    }
}

/// Whether the left-side check fires; symmetric to `right_hit`.
pub open spec fn left_hit(p: PlayerView, m: GridView, k: Corners) -> bool {
    &&& p.vel.x < 0
    &&& p.pos.x < (k.col1 + 1) * m.cell
    &&& {
        let below = p.pos.y + p.size > k.row2 * m.cell;
        if below {
            !m.passable_at(k.row1, k.col1) || !m.passable_at(k.row2, k.col1)
        } else {
            !m.passable_at(k.row1, k.col1)
        }
    }
}

/// The left-side response; symmetric to `spec_right`.
pub open spec fn spec_left(p: PlayerView, m: GridView, k: Corners) -> PlayerView {
    if left_hit(p, m, k) {
        PlayerView {
            pos: Vec2 { x: (k.col1 + 1) * m.cell, y: p.pos.y },
            vel: Vec2 { x: damp(p.vel.x), y: p.vel.y },
            ..p
        }
    } else {
        p
    }
}

/// The world-bounds clamp: of the four boundary violations, only the first
/// one in this fixed order is corrected per tick, with a damped rebound of
/// the corresponding velocity component.
pub open spec fn spec_bounds(p: PlayerView, m: GridView) -> PlayerView {
    let w = m.width * m.cell;
    let h = m.height * m.cell;
    if p.pos.x < 0 {
        PlayerView {
            pos: Vec2 { x: 0, y: p.pos.y },
            vel: Vec2 { x: damp(p.vel.x), y: p.vel.y },
            ..p
        }
    } else if p.pos.x + p.size > w {
        PlayerView {
            pos: Vec2 { x: w - p.size, y: p.pos.y },
            vel: Vec2 { x: damp(p.vel.x), y: p.vel.y },
            ..p
        }
    } else if p.pos.y < 0 {
        PlayerView {
            pos: Vec2 { x: p.pos.x, y: 0 },
            vel: Vec2 { x: p.vel.x, y: damp(p.vel.y) },
            ..p
        }
    } else if p.pos.y + p.size > h {
        PlayerView {
            pos: Vec2 { x: p.pos.x, y: h - p.size },
            vel: Vec2 { x: p.vel.x, y: damp(p.vel.y) },
            ..p
        }
    } else {
        p
    }
}

/// The whole collision resolver: floor probe, then either the ceiling
/// response alone, or the side checks followed by the bounds clamp.
pub open spec fn spec_resolve(p: PlayerView, m: GridView) -> PlayerView {
    let k = corners_of(m, p.pos.x, p.pos.y);
    let p1 = spec_floor(p, m, k);
    if ceiling_hit(p1, m, k) {
        spec_ceiling(p1, m, k)
    } else {
        spec_bounds(spec_left(spec_right(p1, m, k), m, k), m)
    }
}

/// One whole tick: integration, then collision resolution.
pub open spec fn spec_update(p: PlayerView, m: GridView) -> PlayerView {
    spec_resolve(spec_move(p), m)
}

/// A fresh actor with the default rules: a square of 25 world units starting
/// stopped at (50, 50) with friction 0.05, gravity 0.5 and jump impulse 9.5,
/// all in fixed-point sub-steps.
pub fn new() -> (p: Player)
    ensures
        p.size == 2500,
        p.state == PlayerState::Stopped,
        p.pos == (Position { x: 5000, y: 5000 }),
        p.vel == (Velocity { x: 0, y: 0 }),
        p.rules == (PlayerMovement {
            friction: 5,
            max_velocity: Velocity { x: 1000, y: 1000 },
            gravity: 50,
            jump_impulse: 950,
        }),
{
    Player {
        size: 2500,
        state: PlayerState::Stopped,
        pos: Position { x: 5000, y: 5000 },
        vel: Velocity { x: 0, y: 0 },
        rules: PlayerMovement {
            friction: 5,
            max_velocity: Velocity { x: 1000, y: 1000 },
            gravity: 50,
            jump_impulse: 950,
        },
    }
}

impl Player {
    /// Applies one input intent, per the state machine's transition table.
    pub fn pressed(&mut self, intent: InputIntent)
        requires
            mag(old(self).vel.x as int) <= VEL_LIMIT,
            mag(old(self).rules.jump_impulse as int) <= RULE_LIMIT,
        ensures
            final(self)@ == spec_pressed(old(self)@, intent),
    {
        match self.state {
            PlayerState::Stopped => {
                match intent {
                    InputIntent::MoveRight => {
                        self.vel.x = self.vel.x + WALK_START_IMPULSE;
                        self.state = PlayerState::Walking;
                    },
                    InputIntent::MoveLeft => {
                        self.vel.x = self.vel.x - WALK_START_IMPULSE;
                        self.state = PlayerState::Walking;
                    },
                    InputIntent::Jump => {
                        self.jump();
                    },
                }
            },
            PlayerState::Falling => {
                match intent {
                    InputIntent::MoveRight => {
                        self.vel.x = self.vel.x + MOVE_IMPULSE;
                    },
                    InputIntent::MoveLeft => {
                        self.vel.x = self.vel.x - MOVE_IMPULSE;
                    },
                    InputIntent::Jump => {},
                }
            },
            PlayerState::Walking => {
                match intent {
                    InputIntent::MoveRight => {
                        self.vel.x = self.vel.x + MOVE_IMPULSE;
                    },
                    InputIntent::MoveLeft => {
                        self.vel.x = self.vel.x - MOVE_IMPULSE;
                    },
                    InputIntent::Jump => {
                        self.jump();
                    },
                }
            },
        }
    }

    /// A jump, if grounded.
    fn jump(&mut self)
        requires
            mag(old(self).rules.jump_impulse as int) <= RULE_LIMIT,
        ensures
            final(self)@ == spec_jump(old(self)@),
    {
        match self.state {
            PlayerState::Falling => {},
            _ => {
                self.vel.y = -self.rules.jump_impulse;
                self.state = PlayerState::Falling;
            },
        }
    }

    /// Applies one friction step to the horizontal velocity.
    pub fn decelerate(&mut self)
        requires
            mag(old(self).vel.x as int) <= VEL_LIMIT,
            0 < old(self).rules.friction <= RULE_LIMIT,
        ensures
            final(self)@ == spec_decelerate(old(self)@),
            mag(final(self).vel.x as int) <= VEL_LIMIT + RULE_LIMIT * (VEL_LIMIT / UNIT + 1),
    {
        let vx = self.vel.x;
        let f = self.rules.friction;
        let m: i64 = if vx < 0 {
            -vx
        } else {
            vx
        };
        let mut scale: i64 = (m + UNIT / 2) / UNIT;
        if scale == 0 {
            scale = 1;
        }
        proof {
            assert(scale == friction_scale(vx as int));
            assert(1 <= scale <= (VEL_LIMIT as int) / (UNIT as int) + 1) by {
                vstd::arithmetic::div_mod::lemma_div_is_ordered(
                    m as int + UNIT / 2,
                    VEL_LIMIT as int + UNIT / 2,
                    UNIT as int,
                );
            }
            assert(f * scale <= RULE_LIMIT * ((VEL_LIMIT as int) / (UNIT as int) + 1) && f * scale >= 0)
                by (nonlinear_arith)
                requires
                    0 < f <= RULE_LIMIT,
                    1 <= scale <= (VEL_LIMIT as int) / (UNIT as int) + 1,
            ;
        }
        if m <= f {
            self.vel.x = 0;
            match self.state {
                PlayerState::Walking => {
                    self.state = PlayerState::Stopped;
                },
                _ => {},
            }
        } else if vx > f {
            self.vel.x = vx - f * scale;
        } else {
            self.vel.x = vx + f * scale;
        }
    }
}

/// The grid cell covering coordinate `v`, clamped into `[0, count - 1]`.
fn corner_cell(v: i64, cell: i64, count: usize) -> (idx: usize)
    requires
        0 < cell,
        0 < count <= MAX_GRID_CELLS,
        mag(v as int) <= 2 * POS_LIMIT,
    ensures
        idx as int == clamp_index((v as int) / (cell as int), count as int - 1),
        idx < count,
{
    if v < 0 {
        proof {
            vstd::arithmetic::div_mod::lemma_fundamental_div_mod(v as int, cell as int);
            vstd::arithmetic::div_mod::lemma_mod_bound(v as int, cell as int);
            assert((v as int) / (cell as int) < 0) by (nonlinear_arith)
                requires
                    v < 0,
                    cell > 0,
                    v as int == cell * ((v as int) / (cell as int)) + (v as int) % (cell as int),
                    0 <= (v as int) % (cell as int) < cell,
            ;
        }
        0
    } else {
        proof {
            vstd::arithmetic::div_mod::lemma_div_pos_is_pos(v as int, cell as int);
            vstd::arithmetic::div_mod::lemma_fundamental_div_mod(v as int, cell as int);
            vstd::arithmetic::div_mod::lemma_mod_bound(v as int, cell as int);
            assert((v as int) / (cell as int) <= v) by (nonlinear_arith)
                requires
                    v >= 0,
                    cell > 0,
                    v as int == cell * ((v as int) / (cell as int)) + (v as int) % (cell as int),
                    0 <= (v as int) % (cell as int) < cell,
                    (v as int) / (cell as int) >= 0,
            ;
        }
        let q: i64 = v / cell;
        let last: i64 = (count as i64) - 1;
        if q > last {
            count - 1
        } else {
            q as usize
        }
    }
}

/// A damped rebound of one velocity component.
fn damp_vel(v: i64) -> (r: i64)
    requires
        i64::MIN < v,
    ensures
        r as int == damp(v as int),
{
    if v >= 0 {
        -(v / 4)
    } else {
        (-v) / 4
    }
}

impl Player {
    /// A collision response: repositions the actor to the contact surface
    /// and rebounds, damped, the velocity component along `dir`.
    fn collide(&mut self, pos: Position, dir: Direction)
        requires
            i64::MIN < old(self).vel.x,
            i64::MIN < old(self).vel.y,
        ensures
            final(self).pos == pos,
            final(self).size == old(self).size,
            final(self).state == old(self).state,
            final(self).rules == old(self).rules,
            (dir is Up || dir is Down) ==> final(self).vel.x == old(self).vel.x
                && final(self).vel.y as int == damp(old(self).vel.y as int),
            (dir is Left || dir is Right) ==> final(self).vel.y == old(self).vel.y
                && final(self).vel.x as int == damp(old(self).vel.x as int),
    {
        match dir {
            Direction::Up | Direction::Down => {
                self.pos = pos;
                self.vel.y = damp_vel(self.vel.y);
            },
            Direction::Left | Direction::Right => {
                self.pos = pos;
                self.vel.x = damp_vel(self.vel.x);
            },
        }
    }

    /// The collision resolver, run once per tick after integration: samples
    /// the four tiles around the actor, lands or starts falls, resolves
    /// ceiling and side penetration with damped rebounds, and clamps to the
    /// world bounds.
    #[verifier::rlimit(100)]
    #[verifier::spinoff_prover]
    pub fn check_collision(&mut self, map: &TileGrid)
        requires
            map.inv(),
            0 < old(self).size <= EXTENT_LIMIT,
            mag(old(self).pos.x as int) <= 2 * POS_LIMIT,
            mag(old(self).pos.y as int) <= 2 * POS_LIMIT,
            mag(old(self).vel.x as int) <= RESOLVE_VEL_LIMIT,
            mag(old(self).vel.y as int) <= RESOLVE_VEL_LIMIT,
        ensures
            final(self)@ == spec_resolve(old(self)@, map@),
    {
        let ghost p0 = self@;
        let ghost mv = map@;
        let ghost k = corners_of(mv, p0.pos.x, p0.pos.y);

        let cell: i64 = map.grid_size;
        let wcells: usize = map.width_in_cells;
        let hcells: usize = map.height_in_cells;
        let wi: i64 = wcells as i64;
        let hi: i64 = hcells as i64;

        let col1: usize = corner_cell(self.pos.x, cell, wcells);
        let row1: usize = corner_cell(self.pos.y, cell, hcells);
        let col2: usize = if col1 + 1 > wcells - 1 {
            wcells - 1
        } else {
            col1 + 1
        };
        let row2: usize = if row1 + 1 > hcells - 1 {
            hcells - 1
        } else {
            row1 + 1
        };
        proof {
            assert(col1 as int == k.col1 && row1 as int == k.row1 && col2 as int == k.col2
                && row2 as int == k.row2);
        }

        let b11 = map.block_at(row1, col1);
        let b12 = map.block_at(row1, col2);
        let b21 = map.block_at(row2, col1);
        let b22 = map.block_at(row2, col2);
        proof {
            let bound = MAX_GRID_CELLS * MAX_CELL_SIZE;
            assert(0 <= k.row1 * mv.cell <= bound && 0 <= k.row2 * mv.cell <= bound && 0 <= k.col1
                * mv.cell <= bound && 0 <= k.col2 * mv.cell <= bound) by (nonlinear_arith)
                requires
                    0 <= k.row1 <= MAX_GRID_CELLS,
                    0 <= k.row2 <= MAX_GRID_CELLS,
                    0 <= k.col1 <= MAX_GRID_CELLS,
                    0 <= k.col2 <= MAX_GRID_CELLS,
                    0 < mv.cell <= MAX_CELL_SIZE,
                    bound == MAX_GRID_CELLS * MAX_CELL_SIZE,
            ;
        }

        // Floor probe.
        if b21.is_passable() && b22.is_passable() {
            self.state = PlayerState::Falling;
        } else {
            match self.state {
                PlayerState::Falling => {
                    self.state = PlayerState::Walking;
                },
                _ => {},
            }
            if self.pos.y + self.size > b21.y {
                self.pos.y = b21.y - self.size;
            }
        }
        let ghost p1 = self@;
        proof {
            assert(p1 == spec_floor(p0, mv, k));
        }

        // Ceiling check: short-circuits the rest of the tick.
        if self.vel.y < 0 {
            if !b11.is_passable() || !b12.is_passable() {
                let ny: i64 = b11.y + b11.size;
                let x0: i64 = self.pos.x;
                self.collide(Position { x: x0, y: ny }, Direction::Up);
                proof {
                    assert((k.row1 + 1) * mv.cell == k.row1 * mv.cell + mv.cell)
                        by (nonlinear_arith);
                    assert(self@ == spec_ceiling(p1, mv, k));
                }
                return ;
            }
        }
        proof {
            assert(!ceiling_hit(p1, mv, k));
        }

        // Right-side check.
        if self.vel.x > 0 && self.pos.x + self.size > b12.x {
            let below: bool = self.pos.y + self.size > b22.y;
            let hit: bool = if below {
                !b12.is_passable() || !b22.is_passable()
            } else {
                !b12.is_passable()
            };
            if hit {
                let nx: i64 = b12.x - self.size;
                let y0: i64 = self.pos.y;
                self.collide(Position { x: nx, y: y0 }, Direction::Right);
            }
        }
        let ghost p2 = self@;
        proof {
            assert(p2 == spec_right(p1, mv, k));
        }

        // Left-side check.
        if self.vel.x < 0 && self.pos.x < b11.x + b11.size {
            let below: bool = self.pos.y + self.size > b21.y;
            let hit: bool = if below {
                !b11.is_passable() || !b21.is_passable()
            } else {
                !b11.is_passable()
            };
            if hit {
                let nx: i64 = b11.x + b11.size;
                let y0: i64 = self.pos.y;
                self.collide(Position { x: nx, y: y0 }, Direction::Left);
            }
        }
        let ghost p3 = self@;
        proof {
            assert((k.col1 + 1) * mv.cell == k.col1 * mv.cell + mv.cell) by (nonlinear_arith);
            assert(p3 == spec_left(p2, mv, k));
        }

        // World-bounds clamp: only the first violated boundary is corrected.
        proof {
            assert(wi * cell <= MAX_GRID_CELLS * MAX_CELL_SIZE && wi
                * cell >= cell) by (nonlinear_arith)
                requires
                    0 < wi <= MAX_GRID_CELLS,
                    0 < cell <= MAX_CELL_SIZE,
            ;
            assert(hi * cell <= MAX_GRID_CELLS * MAX_CELL_SIZE && hi
                * cell >= cell) by (nonlinear_arith)
                requires
                    0 < hi <= MAX_GRID_CELLS,
                    0 < cell <= MAX_CELL_SIZE,
            ;
        }
        let map_w: i64 = wi * cell;
        let map_h: i64 = hi * cell;
        if self.pos.x < 0 {
            let y0: i64 = self.pos.y;
            self.collide(Position { x: 0, y: y0 }, Direction::Left);
        } else if self.pos.x + self.size > map_w {
            let y0: i64 = self.pos.y;
            self.collide(Position { x: map_w - self.size, y: y0 }, Direction::Right);
        } else if self.pos.y < 0 {
            let x0: i64 = self.pos.x;
            self.collide(Position { x: x0, y: 0 }, Direction::Up);
        } else if self.pos.y + self.size > map_h {
            let x0: i64 = self.pos.x;
            self.collide(Position { x: x0, y: map_h - self.size }, Direction::Down);
        }
        proof {
            assert(self@ == spec_bounds(p3, mv));
        }
    }

    /// One whole logical tick: applies the state machine's per-tick row
    /// (zeroing, or integration plus friction, with gravity while falling),
    /// then resolves collisions against the grid.
    pub fn update(&mut self, map: &TileGrid)
        requires
            map.inv(),
            0 < old(self).size <= EXTENT_LIMIT,
            mag(old(self).pos.x as int) <= POS_LIMIT,
            mag(old(self).pos.y as int) <= POS_LIMIT,
            mag(old(self).vel.x as int) <= VEL_LIMIT,
            mag(old(self).vel.y as int) <= VEL_LIMIT,
            0 < old(self).rules.friction <= RULE_LIMIT,
            mag(old(self).rules.gravity as int) <= RULE_LIMIT,
        ensures
            final(self)@ == spec_update(old(self)@, map@),
    {
        match self.state {
            PlayerState::Walking => {
                self.pos.x = self.pos.x + self.vel.x;
                self.pos.y = self.pos.y + self.vel.y;
                self.decelerate();
            },
            PlayerState::Stopped => {
                self.vel.x = 0;
                self.vel.y = 0;
            },
            PlayerState::Falling => {
                self.vel.y = self.vel.y + self.rules.gravity;
                self.pos.x = self.pos.x + self.vel.x;
                self.pos.y = self.pos.y + self.vel.y;
                self.decelerate();
            },
        }
        proof {
            assert(self@ == spec_move(old(self)@));
        }
        self.check_collision(map);
    }
}

} // verus!
