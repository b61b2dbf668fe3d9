//! Collision resolution: landing, ceiling and wall rebounds, world bounds,
//! and the full drop scenario.

use platformer::grid::new as new_grid;
use platformer::grid::BlockType;
use platformer::grid::TileGrid;
use platformer::player::Player;
use platformer::player::PlayerMovement;
use platformer::player::PlayerState;
use platformer::player::Position;
use platformer::player::Velocity;

fn grid_with_ground_row(width: i64, height: i64, cell: i64, row: usize) -> TileGrid {
    let mut g = new_grid(width, height, cell).unwrap();
    let mut col: usize = 0;
    while col < g.width_in_cells {
        g.set_block_type(row, col, BlockType::Ground).unwrap();
        col += 1;
    }
    g
}

fn actor(pos: Position, vel: Velocity, state: PlayerState, size: i64) -> Player {
    Player {
        size,
        state,
        pos,
        vel,
        rules: PlayerMovement {
            friction: 1,
            max_velocity: Velocity { x: 1000, y: 1000 },
            gravity: 5,
            jump_impulse: 50,
        },
    }
}

#[test]
fn floor_landing_is_exact() {
    let g = grid_with_ground_row(250, 250, 25, 5);
    let mut p = actor(
        Position { x: 100, y: 95 },
        Velocity { x: 0, y: 20 },
        PlayerState::Falling,
        25,
    );
    p.update(&g);
    // bottom edge exactly on the row's top edge: no penetration, no gap
    assert_eq!(p.pos.y, 5 * 25 - 25);
    assert_eq!(p.state, PlayerState::Walking);
    assert_eq!(p.vel.y, 25);
    assert_eq!(p.pos.x, 100);
}

#[test]
fn drop_scenario_lands_on_row_five() {
    // 10 x 10 cells of 25 world units; row 5 all ground; the actor starts
    // at (100, 0) world units with zero velocity, falling.
    let g = grid_with_ground_row(25_000, 25_000, 2_500, 5);
    let mut p = Player {
        size: 2500,
        state: PlayerState::Falling,
        pos: Position { x: 10_000, y: 0 },
        vel: Velocity { x: 0, y: 0 },
        rules: PlayerMovement {
            friction: 5,
            max_velocity: Velocity { x: 1000, y: 1000 },
            gravity: 50,
            jump_impulse: 950,
        },
    };
    let mut ticks: u32 = 0;
    while p.state != PlayerState::Walking {
        p.update(&g);
        ticks += 1;
        assert!(ticks <= 100);
    }
    assert_eq!(p.pos.y, 5 * 2500 - 2500);
    assert_eq!(p.state, PlayerState::Walking);
    // the landing is stable: further ticks keep the actor on the surface
    let mut extra: u32 = 0;
    while extra < 10 {
        p.update(&g);
        extra += 1;
    }
    assert_eq!(p.pos.y, 5 * 2500 - 2500);
}

#[test]
fn wall_bounce_damps_once() {
    let mut g = grid_with_ground_row(250, 250, 25, 5);
    g.set_block_type(4, 6, BlockType::Ground).unwrap();
    let mut p = actor(
        Position { x: 100, y: 100 },
        Velocity { x: 30, y: 0 },
        PlayerState::Walking,
        25,
    );
    p.update(&g);
    // impact at speed 29 after friction: snapped to the wall face and
    // rebounding at a quarter of the impact speed
    assert_eq!(p.pos.x, 6 * 25 - 25);
    assert_eq!(p.vel.x, -(29 / 4));
    assert_eq!(p.pos.y, 100);
    assert_eq!(p.state, PlayerState::Walking);

    p.update(&g);
    // moving away: the damping is not applied again on the next tick
    assert_eq!(p.pos.x, 118);
    assert_eq!(p.vel.x, -6);
}

#[test]
fn ceiling_bounce_pushes_below_and_damps() {
    let mut g = new_grid(250, 250, 25).unwrap();
    g.set_block_type(2, 4, BlockType::Ground).unwrap();
    let mut p = actor(
        Position { x: 100, y: 70 },
        Velocity { x: 0, y: -8 },
        PlayerState::Falling,
        25,
    );
    p.check_collision(&g);
    assert_eq!(p.pos.y, 2 * 25 + 25);
    assert_eq!(p.vel.y, 2);
    assert_eq!(p.pos.x, 100);
    assert_eq!(p.vel.x, 0);
    assert_eq!(p.state, PlayerState::Falling);
}

#[test]
fn left_bound_clamps_and_damps() {
    let g = new_grid(100, 100, 25).unwrap();
    let mut p = actor(
        Position { x: -10, y: 20 },
        Velocity { x: -12, y: 0 },
        PlayerState::Falling,
        25,
    );
    p.check_collision(&g);
    assert_eq!(p.pos.x, 0);
    assert_eq!(p.vel.x, 3);
    assert_eq!(p.pos.y, 20);
}

#[test]
fn right_bound_clamps_and_damps() {
    let g = new_grid(100, 100, 25).unwrap();
    let mut p = actor(
        Position { x: 95, y: 20 },
        Velocity { x: 20, y: 0 },
        PlayerState::Falling,
        25,
    );
    p.check_collision(&g);
    assert_eq!(p.pos.x, 100 - 25);
    assert_eq!(p.vel.x, -5);
    assert_eq!(p.pos.y, 20);
}

#[test]
fn top_bound_clamps_and_damps() {
    let g = new_grid(100, 100, 25).unwrap();
    let mut p = actor(
        Position { x: 20, y: -30 },
        Velocity { x: 0, y: -6 },
        PlayerState::Falling,
        25,
    );
    p.check_collision(&g);
    assert_eq!(p.pos.y, 0);
    assert_eq!(p.vel.y, 1);
    assert_eq!(p.pos.x, 20);
}

#[test]
fn bottom_bound_clamps_and_damps() {
    let g = new_grid(100, 100, 25).unwrap();
    let mut p = actor(
        Position { x: 20, y: 90 },
        Velocity { x: 0, y: 16 },
        PlayerState::Falling,
        25,
    );
    p.update(&g);
    // gravity 5 raises the fall speed to 21 before integration
    assert_eq!(p.pos.y, 100 - 25);
    assert_eq!(p.vel.y, -(21 / 4));
}

#[test]
fn stopped_tick_zeroes_velocity_and_probes_floor() {
    let g = new_grid(100, 100, 25).unwrap();
    let mut p = actor(
        Position { x: 30, y: 30 },
        Velocity { x: 7, y: -3 },
        PlayerState::Stopped,
        25,
    );
    p.update(&g);
    assert_eq!(p.vel, Velocity { x: 0, y: 0 });
    assert_eq!(p.pos, Position { x: 30, y: 30 });
    // nothing under the actor: the floor probe starts a fall
    assert_eq!(p.state, PlayerState::Falling);
}
