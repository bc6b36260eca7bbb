//! The world: spawning, generation-checked handles, the command buffer, and
//! the projectile subsystem outside the full pipeline.

use tickcore::pose::{AxisAngle, Vec3};
use tickcore::state::GameState;
use tickcore::world::{
    EffectRequest, StateScope, World, COLLIDER_HALF_HEIGHT_MILLI, COLLIDER_HALF_WIDTH_MILLI,
    PROJECTILE_DEPTH_MILLI, PROJECTILE_SCALE_MILLI, PROJECTILE_TIMER_MS,
};

fn fire_orientation() -> AxisAngle {
    AxisAngle { axis: Vec3 { x: 0, y: 0, z: 1000 }, angle_mdeg: 30_000 }
}

#[test]
fn spawn_projectile_components() {
    let mut w = World::new(GameState::Game);
    let origin = Vec3 { x: 5000, y: -2000, z: 400 };
    let e = w.spawn_projectile(origin, fire_orientation());
    // The creation is deferred: the handle is settled and its slot claimed,
    // but the entity goes live only when the command buffer is applied.
    assert!(w.is_pending(e));
    assert!(!w.is_live(e));
    assert_eq!(w.projectile(e), None);
    w.apply_commands();
    assert!(w.is_live(e));
    let p = w.projectile(e).unwrap();
    assert_eq!(p.pose.x, 5000);
    assert_eq!(p.pose.y, -2000);
    assert_eq!(p.pose.angle_mdeg, 30_000);
    // The velocity magnitude is exactly the fixed speed whatever the spawn
    // orientation; the direction is the forward vector rotated by the angle.
    assert_eq!(p.vel.speed, 200);
    assert_eq!(p.vel.angle_mdeg, 30_000);
    assert_eq!(p.timer.duration_ms, PROJECTILE_TIMER_MS);
    assert_eq!(p.timer.elapsed_ms, 0);
}

#[test]
fn spawn_projectile_requests_body_then_sound() {
    let mut w = World::new(GameState::Game);
    let e = w.spawn_projectile(Vec3 { x: 0, y: 0, z: 0 }, fire_orientation());
    let effects = w.take_effects();
    assert_eq!(effects.len(), 2);
    match effects[0] {
        EffectRequest::SpawnBody(req) => {
            assert_eq!(req.pose.angle_mdeg, 30_000);
            assert_eq!(req.vel.speed, 200);
            assert!(req.sensor);
            assert_eq!(req.half_width_milli, COLLIDER_HALF_WIDTH_MILLI);
            assert_eq!(req.half_height_milli, COLLIDER_HALF_HEIGHT_MILLI);
            assert_eq!(req.half_width_milli, 250);
            assert_eq!(req.half_height_milli, 1000);
            assert_eq!(req.depth_milli, PROJECTILE_DEPTH_MILLI);
            assert_eq!(req.scale_milli, PROJECTILE_SCALE_MILLI);
            assert_eq!(req.depth_milli, -4000);
            assert_eq!(req.scale_milli, 500);
        }
        other => panic!("expected a body request, got {:?}", other),
    }
    assert_eq!(effects[1], EffectRequest::PlayFireSound);
    // Taking the effects drains the queue; the queued creation is untouched.
    assert!(w.take_effects().is_empty());
    assert!(w.is_pending(e));
}

#[test]
fn projectile_scope_spans_game_pause_game_over() {
    let scope = tickcore::world::make_projectile_scope();
    assert!(!scope.contains(GameState::StartMenu));
    assert!(scope.contains(GameState::Game));
    assert!(scope.contains(GameState::Pause));
    assert!(scope.contains(GameState::GameOver));
}

#[test]
fn duplicate_destroy_releases_once() {
    // Two destroy requests for the same entity within one tick collapse to a
    // single release, with no error.
    let mut w = World::new(GameState::Game);
    let e = w.spawn_entity(None);
    w.queue_destroy(e);
    w.queue_destroy(e);
    let released = w.apply_commands();
    assert_eq!(released, 1);
    assert!(!w.is_live(e));
}

#[test]
fn stale_destroy_is_a_no_op() {
    let mut w = World::new(GameState::Game);
    let e = w.spawn_entity(None);
    w.queue_destroy(e);
    assert_eq!(w.apply_commands(), 1);
    // The handle is stale now: further requests release nothing.
    w.queue_destroy(e);
    assert_eq!(w.apply_commands(), 0);
    assert!(!w.is_live(e));
}

#[test]
fn recycled_slot_gets_fresh_generation() {
    let mut w = World::new(GameState::Game);
    let first = w.spawn_entity(None);
    w.queue_destroy(first);
    // One cleanup applies both queued commands in order: the creation, then
    // the destruction.
    w.apply_commands();
    let second = w.spawn_entity(None);
    w.apply_commands();
    // The slot is recycled under a new generation, so the stale handle is
    // detected and ignored rather than reaching the new occupant.
    assert_eq!(second.index, first.index);
    assert_ne!(second.generation, first.generation);
    assert!(!w.is_live(first));
    assert!(w.is_live(second));
    w.queue_destroy(first);
    assert_eq!(w.apply_commands(), 0);
    assert!(w.is_live(second));
}

#[test]
fn timer_pass_is_frozen_outside_game() {
    let mut w = World::new(GameState::Pause);
    let e = w.spawn_projectile(Vec3 { x: 0, y: 0, z: 0 }, fire_orientation());
    w.apply_commands();
    for _ in 0..20 {
        w.tick_timers(1000);
    }
    // Twenty simulated seconds of pause: the timer has not advanced at all.
    assert!(w.is_live(e));
    assert_eq!(w.projectile(e).unwrap().timer.elapsed_ms, 0);
    assert_eq!(w.apply_commands(), 0);
    assert!(w.is_live(e));
}

#[test]
fn timer_saturates_at_the_largest_step() {
    // A pathologically large time step saturates the elapsed counter instead
    // of wrapping, so the timer still counts as finished.
    let mut w = World::new(GameState::Game);
    let e = w.spawn_projectile(Vec3 { x: 0, y: 0, z: 0 }, fire_orientation());
    w.apply_commands();
    w.tick_timers(u64::MAX);
    assert_eq!(w.projectile(e).unwrap().timer.elapsed_ms, u64::MAX);
    w.tick_timers(u64::MAX);
    assert_eq!(w.projectile(e).unwrap().timer.elapsed_ms, u64::MAX);
    assert_eq!(w.apply_commands(), 1);
    assert!(!w.is_live(e));
}

#[test]
fn destroy_on_exit_from_scope() {
    let mut w = World::new(GameState::Game);
    let scoped = w.spawn_entity(Some(StateScope {
        start_menu: false,
        game: true,
        pause: false,
        game_over: false,
    }));
    let unscoped = w.spawn_entity(None);
    w.apply_commands();
    w.request_state(GameState::Pause);
    let t = w.run_state_fsm();
    assert_eq!(t, Some((GameState::Game, GameState::Pause)));
    assert_eq!(w.current_state(), GameState::Pause);
    // The registry queues the out-of-scope entity; destruction is deferred to
    // the cleanup pass, so it is still live in between.
    assert!(w.is_live(scoped));
    assert_eq!(w.apply_commands(), 1);
    assert!(!w.is_live(scoped));
    // An entity without a scope is never auto-destroyed.
    assert!(w.is_live(unscoped));
}

#[test]
fn transition_commits_once_and_clears_request() {
    let mut w = World::new(GameState::StartMenu);
    // The last request written before the transition system runs wins.
    w.request_state(GameState::Pause);
    w.request_state(GameState::Game);
    assert_eq!(w.run_state_fsm(), Some((GameState::StartMenu, GameState::Game)));
    assert_eq!(w.current_state(), GameState::Game);
    // The request was cleared: the next pass commits nothing.
    assert_eq!(w.run_state_fsm(), None);
    assert_eq!(w.current_state(), GameState::Game);
}

#[test]
fn transition_to_current_state_is_a_no_op() {
    let mut w = World::new(GameState::Game);
    w.request_state(GameState::Game);
    assert_eq!(w.run_state_fsm(), None);
    assert_eq!(w.current_state(), GameState::Game);
}
