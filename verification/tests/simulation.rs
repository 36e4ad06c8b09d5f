//! Tests of the fixed-point arithmetic, the spawner and the integrator.

use hanabi::fx::{mul_fp, sat_coord, whole_units, ACC_CEIL, COORD_LIMIT, FP};
use hanabi::math::Vec3Fx;
use hanabi::pool::{MotionState, SpawnState, Spawner, UpdateState, Updater, GRAVITY_Y};

fn vec3(x: i64, y: i64, z: i64) -> Vec3Fx {
    Vec3Fx { x, y, z }
}

#[test]
fn mul_fp_exact_values() {
    // 1 * 1 = 1, 10 * 0.5 = 5, flooring toward negative infinity.
    assert_eq!(mul_fp(FP, FP), FP);
    assert_eq!(mul_fp(10 * FP, FP / 2), 5 * FP);
    assert_eq!(mul_fp(3, 1), 0);
    assert_eq!(mul_fp(-3, 1), -1);
    assert_eq!(mul_fp(-FP, FP), -FP);
    assert_eq!(mul_fp(0, 123456), 0);
}

#[test]
fn sat_coord_clamps_at_world_bounds() {
    assert_eq!(sat_coord(0), 0);
    assert_eq!(sat_coord(COORD_LIMIT + 5), COORD_LIMIT);
    assert_eq!(sat_coord(-COORD_LIMIT - 5), -COORD_LIMIT);
}

#[test]
fn whole_units_floors() {
    assert_eq!(whole_units(0), 0);
    assert_eq!(whole_units(FP - 1), 0);
    assert_eq!(whole_units(FP), 1);
    assert_eq!(whole_units(5 * FP + 3), 5);
}

#[test]
fn spawn_example_scenario() {
    // rate = 10 per second, capacity 128, origin (0,0,0), velocity (1,2,3);
    // after half a second exactly five particles are active, each with
    // previous position = origin - velocity * 0.5.
    let mut spawner = Spawner::new(10 * FP, vec3(0, 0, 0), vec3(FP, 2 * FP, 3 * FP));
    let mut spawn_state = SpawnState::default();
    let mut state = UpdateState::new(128);
    spawner.spawn(&mut spawn_state, &mut state, FP / 2);
    assert_eq!(state.used, 5);
    assert_eq!(spawn_state.count, 0);
    for i in 0..5 {
        let p = state.buffer[i];
        assert_eq!(p.position, vec3(0, 0, 0));
        assert_eq!(p.prev_position, vec3(-FP / 2, -FP, -3 * FP / 2));
        assert_eq!(p.acceleration, vec3(0, GRAVITY_Y, 0));
    }
    // Slots beyond the five claimed ones stay inert.
    assert_eq!(state.buffer[5], MotionState::default());
}

#[test]
fn spawn_accumulator_carries_fraction() {
    // One particle per second, ticks of 0.3 s: nothing for three ticks,
    // then the accumulated debt crosses one particle.
    let dt = 314573; // 0.3 s, rounded up to a whole fixed-point step
    let mut spawner = Spawner::new(FP, vec3(0, 0, 0), vec3(0, 0, 0));
    let mut spawn_state = SpawnState::default();
    let mut state = UpdateState::new(16);
    for _ in 0..3 {
        spawner.spawn(&mut spawn_state, &mut state, dt);
    }
    assert_eq!(state.used, 0);
    assert_eq!(spawn_state.count, 3 * dt);
    spawner.spawn(&mut spawn_state, &mut state, dt);
    assert_eq!(state.used, 1);
    assert_eq!(spawn_state.count, 4 * dt - FP);
}

#[test]
fn spawn_clamps_to_capacity_and_keeps_debt() {
    // 100 particles per second into a pool of three: the spawner activates
    // three and retains the remaining debt.
    let mut spawner = Spawner::new(100 * FP, vec3(0, 0, 0), vec3(0, 0, 0));
    let mut spawn_state = SpawnState::default();
    let mut state = UpdateState::new(3);
    spawner.spawn(&mut spawn_state, &mut state, FP);
    assert_eq!(state.used, 3);
    assert_eq!(spawn_state.count, 97 * FP);
    // Capacity never frees up, so nothing more is ever activated.
    spawner.spawn(&mut spawn_state, &mut state, FP);
    assert_eq!(state.used, 3);
    assert!(spawn_state.count <= ACC_CEIL);
}

#[test]
fn integrate_constant_velocity() {
    // position 1, previous 0, no acceleration: the particle advances one
    // unit per step regardless of dt, and the previous position follows.
    let mut state = UpdateState::new(4);
    let mut spawner = Spawner::new(FP, vec3(FP, 0, 0), vec3(0, 0, 0));
    let mut spawn_state = SpawnState::default();
    spawner.spawn(&mut spawn_state, &mut state, FP);
    assert_eq!(state.used, 1);
    state.buffer[0] = MotionState {
        position: vec3(FP, 0, 0),
        prev_position: vec3(0, 0, 0),
        acceleration: vec3(0, 0, 0),
    };
    let mut updater = Updater::default();
    updater.update(&mut state, FP);
    assert_eq!(state.buffer[0].position, vec3(2 * FP, 0, 0));
    assert_eq!(state.buffer[0].prev_position, vec3(FP, 0, 0));
}

#[test]
fn integrate_gravity_from_rest() {
    let mut state = UpdateState::new(1);
    let mut spawner = Spawner::new(FP, vec3(0, 0, 0), vec3(0, 0, 0));
    let mut spawn_state = SpawnState::default();
    spawner.spawn(&mut spawn_state, &mut state, FP);
    assert_eq!(state.used, 1);
    let mut updater = Updater::default();
    updater.update(&mut state, FP);
    // One second of -9.81 acceleration from rest: a * dt * dt exactly.
    assert_eq!(state.buffer[0].position, vec3(0, GRAVITY_Y, 0));
    assert_eq!(state.buffer[0].prev_position, vec3(0, 0, 0));
}

#[test]
fn integrate_zero_dt_at_rest_is_identity() {
    // A particle whose previous position equals its position is untouched
    // by a zero time step.
    let mut state = UpdateState::new(2);
    let mut spawner = Spawner::new(2 * FP, vec3(7, 8, 9), vec3(0, 0, 0));
    let mut spawn_state = SpawnState::default();
    spawner.spawn(&mut spawn_state, &mut state, FP);
    assert_eq!(state.used, 2);
    let before = state.buffer[0];
    assert_eq!(before.position, before.prev_position);
    let mut updater = Updater::default();
    updater.update(&mut state, 0);
    assert_eq!(state.buffer[0], before);
    assert_eq!(state.buffer[1], before);
}

#[test]
fn integrate_touches_only_active_slots() {
    let mut state = UpdateState::new(3);
    state.buffer[2] = MotionState {
        position: vec3(5, 5, 5),
        prev_position: vec3(4, 4, 4),
        acceleration: vec3(0, 0, 0),
    };
    // used == 0: nothing is integrated.
    let mut updater = Updater::default();
    updater.update(&mut state, FP);
    assert_eq!(state.buffer[2].position, vec3(5, 5, 5));
    assert_eq!(state.buffer[2].prev_position, vec3(4, 4, 4));
}

#[test]
fn init_velocity_steps_backward() {
    let mut m = MotionState::default();
    m.position = vec3(10 * FP, 0, 0);
    m.init_velocity(vec3(2 * FP, 0, 0), FP / 2);
    assert_eq!(m.prev_position, vec3(9 * FP, 0, 0));
    assert_eq!(m.position, vec3(10 * FP, 0, 0));
}

#[test]
fn new_pool_is_inert() {
    let state = UpdateState::new(7);
    assert_eq!(state.used, 0);
    assert_eq!(state.buffer.len(), 7);
    for slot in &state.buffer {
        assert_eq!(*slot, MotionState::default());
    }
}
