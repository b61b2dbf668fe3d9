//! The movement state machine: input intents, jumps, and friction.

use platformer::player::new;
use platformer::player::InputIntent;
use platformer::player::Player;
use platformer::player::PlayerMovement;
use platformer::player::PlayerState;
use platformer::player::Position;
use platformer::player::Velocity;

#[test]
fn new_player_defaults() {
    let p = new();
    assert_eq!(p.size, 2500);
    assert_eq!(p.state, PlayerState::Stopped);
    assert_eq!(p.pos, Position { x: 5000, y: 5000 });
    assert_eq!(p.vel, Velocity { x: 0, y: 0 });
    assert_eq!(p.rules.friction, 5);
    assert_eq!(p.rules.gravity, 50);
    assert_eq!(p.rules.jump_impulse, 950);
    assert_eq!(p.rules.max_velocity, Velocity { x: 1000, y: 1000 });
}

#[test]
fn walk_start_impulse_from_standstill() {
    let mut p = new();
    p.pressed(InputIntent::MoveRight);
    assert_eq!(p.vel.x, 150);
    assert_eq!(p.state, PlayerState::Walking);

    let mut q = new();
    q.pressed(InputIntent::MoveLeft);
    assert_eq!(q.vel.x, -150);
    assert_eq!(q.state, PlayerState::Walking);
}

#[test]
fn walking_step_impulse() {
    let mut p = new();
    p.pressed(InputIntent::MoveRight);
    p.pressed(InputIntent::MoveRight);
    assert_eq!(p.vel.x, 250);
    p.pressed(InputIntent::MoveLeft);
    assert_eq!(p.vel.x, 150);
    assert_eq!(p.state, PlayerState::Walking);
}

#[test]
fn air_control_impulse() {
    let mut p = new();
    p.state = PlayerState::Falling;
    p.pressed(InputIntent::MoveLeft);
    assert_eq!(p.vel.x, -100);
    assert_eq!(p.state, PlayerState::Falling);
    p.pressed(InputIntent::MoveRight);
    assert_eq!(p.vel.x, 0);
}

#[test]
fn jump_from_ground_sets_impulse() {
    let mut p = new();
    p.pressed(InputIntent::Jump);
    assert_eq!(p.vel.y, -950);
    assert_eq!(p.state, PlayerState::Falling);

    let mut q = new();
    q.pressed(InputIntent::MoveRight);
    q.pressed(InputIntent::Jump);
    assert_eq!(q.vel.y, -950);
    assert_eq!(q.vel.x, 150);
    assert_eq!(q.state, PlayerState::Falling);
}

#[test]
fn jump_in_air_changes_nothing() {
    let p = Player {
        size: 25,
        state: PlayerState::Falling,
        pos: Position { x: 40, y: 60 },
        vel: Velocity { x: 30, y: 40 },
        rules: PlayerMovement {
            friction: 1,
            max_velocity: Velocity { x: 1000, y: 1000 },
            gravity: 5,
            jump_impulse: 50,
        },
    };
    let mut q = p;
    q.pressed(InputIntent::Jump);
    assert_eq!(q, p);
}

#[test]
fn decelerate_is_velocity_proportional() {
    let mut p = new();
    p.state = PlayerState::Walking;
    p.vel.x = 150;
    p.decelerate();
    // friction 0.05, speed rounds to 2 units: one step of 10 sub-steps
    assert_eq!(p.vel.x, 140);
    assert_eq!(p.state, PlayerState::Walking);

    let mut q = new();
    q.state = PlayerState::Walking;
    q.vel.x = -1000;
    q.decelerate();
    // speed rounds to 10 units: one step of 50 sub-steps, toward zero
    assert_eq!(q.vel.x, -950);
}

#[test]
fn decelerate_snaps_slow_walker_to_stopped() {
    let mut p = new();
    p.state = PlayerState::Walking;
    p.vel.x = 5;
    p.vel.y = 7;
    p.decelerate();
    assert_eq!(p.vel.x, 0);
    assert_eq!(p.vel.y, 7);
    assert_eq!(p.state, PlayerState::Stopped);
}

#[test]
fn decelerate_snap_keeps_falling_state() {
    let mut p = new();
    p.state = PlayerState::Falling;
    p.vel.x = -3;
    p.decelerate();
    assert_eq!(p.vel.x, 0);
    assert_eq!(p.state, PlayerState::Falling);
}

#[test]
fn friction_converges_to_stopped() {
    let mut p = new();
    p.state = PlayerState::Walking;
    p.vel.x = 1000;
    let mut steps: u32 = 0;
    while !(p.vel.x == 0 && p.state == PlayerState::Stopped) {
        p.decelerate();
        steps += 1;
        assert!(steps <= 1001);
    }
    assert_eq!(p.vel.x, 0);
    assert_eq!(p.state, PlayerState::Stopped);
}
