//! The staged scheduler and full ticks through the standard pipeline.

use tickcore::pose::{AxisAngle, Vec3};
use tickcore::scheduler::{
    standard_pipeline, ConfigError, Scheduler, SystemKind, CLEANUP_SYSTEM_ID, FSM_SYSTEM_ID,
    TIMER_SYSTEM_ID,
};
use tickcore::state::GameState;
use tickcore::world::{StateScope, World};

fn fire_orientation() -> AxisAngle {
    AxisAngle { axis: Vec3 { x: 0, y: 0, z: 1000 }, angle_mdeg: 0 }
}

fn origin() -> Vec3 {
    Vec3 { x: 0, y: 0, z: 0 }
}

#[test]
fn unknown_predecessor_is_a_build_error() {
    let mut s = Scheduler::new();
    assert_eq!(s.declare_stage(7), Err(ConfigError::UnknownStage(7)));
    assert_eq!(s.stage_count(), 1);
    let follow = s.declare_stage(0).unwrap();
    assert_eq!(follow, 1);
    assert_eq!(s.stage_count(), 2);
}

#[test]
fn unknown_stage_refuses_registration() {
    let mut s = Scheduler::new();
    let r = s.register_system(3, 9, SystemKind::External, None);
    assert_eq!(r, Err(ConfigError::UnknownStage(3)));
    assert_eq!(s.register_system(0, 9, SystemKind::External, None), Ok(()));
}

#[test]
fn stages_run_in_declaration_order_with_both_branches() {
    let (mut s, stages) = standard_pipeline();
    // One external system per collaborator stage, marked by its identifier.
    s.register_system(stages.follow, 10, SystemKind::External, None).unwrap();
    s.register_system(stages.shoot, 11, SystemKind::External, None).unwrap();
    s.register_system(stages.handle_contact, 12, SystemKind::External, None).unwrap();
    s.register_system(stages.handle_explosion, 13, SystemKind::External, None).unwrap();
    let mut w = World::new(GameState::Game);
    let trace = s.run_tick(&mut w, 16);
    // Follow/shoot run after the shared root; the contact branch follows;
    // the transition system and the cleanup close the tick.
    assert_eq!(
        trace,
        vec![TIMER_SYSTEM_ID, 10, 11, 12, 13, FSM_SYSTEM_ID, CLEANUP_SYSTEM_ID]
    );
}

#[test]
fn execution_order_is_reproducible() {
    // Two schedulers built by the same registration sequence, driving two
    // equal worlds, produce identical traces and identical outcomes, tick
    // after tick.
    let build = || {
        let (mut s, stages) = standard_pipeline();
        s.register_system(stages.shoot, 21, SystemKind::External, Some(GameState::Game))
            .unwrap();
        s.register_system(stages.handle_contact, 22, SystemKind::External, None).unwrap();
        s
    };
    let s1 = build();
    let s2 = build();
    let mut w1 = World::new(GameState::StartMenu);
    let mut w2 = World::new(GameState::StartMenu);
    let mut traces1 = Vec::new();
    let mut traces2 = Vec::new();
    for tick in 0..6 {
        if tick == 1 {
            w1.request_state(GameState::Game);
            w2.request_state(GameState::Game);
        }
        if tick == 2 {
            let e1 = w1.spawn_projectile(origin(), fire_orientation());
            let e2 = w2.spawn_projectile(origin(), fire_orientation());
            assert_eq!(e1, e2);
        }
        traces1.push(s1.run_tick(&mut w1, 16));
        traces2.push(s2.run_tick(&mut w2, 16));
    }
    assert_eq!(traces1, traces2);
    assert_eq!(w1.current_state(), w2.current_state());
}

#[test]
fn mode_gate_is_checked_at_the_systems_turn() {
    let (mut s, stages) = standard_pipeline();
    // Gated on Game, registered after the transition stage: it sees the mode
    // entered earlier in the same tick.
    s.register_system(stages.cleanup, 30, SystemKind::External, Some(GameState::Game))
        .unwrap();
    // Gated on Game, registered before the transition stage: it still sees
    // the previous mode during the transition tick.
    s.register_system(stages.shoot, 31, SystemKind::External, Some(GameState::Game)).unwrap();
    let mut w = World::new(GameState::StartMenu);
    let trace = s.run_tick(&mut w, 16);
    // In the start menu neither gated system runs.
    assert_eq!(trace, vec![TIMER_SYSTEM_ID, FSM_SYSTEM_ID, CLEANUP_SYSTEM_ID]);
    w.request_state(GameState::Game);
    let trace = s.run_tick(&mut w, 16);
    assert_eq!(trace, vec![TIMER_SYSTEM_ID, FSM_SYSTEM_ID, CLEANUP_SYSTEM_ID, 30]);
    let trace = s.run_tick(&mut w, 16);
    assert_eq!(trace, vec![TIMER_SYSTEM_ID, 31, FSM_SYSTEM_ID, CLEANUP_SYSTEM_ID, 30]);
}

#[test]
fn projectile_expires_at_five_seconds_of_game_time() {
    let (s, _) = standard_pipeline();
    let mut w = World::new(GameState::Game);
    let e = w.spawn_projectile(origin(), fire_orientation());
    // The spawn tick's cleanup applies the queued creation.
    s.run_tick(&mut w, 0);
    assert!(w.is_live(e));
    // 4.99 simulated seconds: still alive.
    s.run_tick(&mut w, 4990);
    assert!(w.is_live(e));
    assert_eq!(w.projectile(e).unwrap().timer.elapsed_ms, 4990);
    // Ten more milliseconds reach the 5 second duration: the timer queues the
    // destruction and the same tick's cleanup applies it.
    s.run_tick(&mut w, 10);
    assert!(!w.is_live(e));
}

#[test]
fn paused_time_does_not_count_against_the_timer() {
    let (s, _) = standard_pipeline();
    let mut w = World::new(GameState::Game);
    let e = w.spawn_projectile(origin(), fire_orientation());
    // The spawn tick's cleanup applies the queued creation.
    s.run_tick(&mut w, 0);
    s.run_tick(&mut w, 1000);
    assert_eq!(w.projectile(e).unwrap().timer.elapsed_ms, 1000);
    // Enter Pause; the timer pass of the transition tick still runs under
    // Game, with a zero step, so nothing advances.
    w.request_state(GameState::Pause);
    s.run_tick(&mut w, 0);
    assert_eq!(w.current_state(), GameState::Pause);
    // Ten simulated seconds of pause: alive, elapsed time untouched.
    for _ in 0..10 {
        s.run_tick(&mut w, 1000);
    }
    assert!(w.is_live(e));
    assert_eq!(w.projectile(e).unwrap().timer.elapsed_ms, 1000);
    // Back to Game: the timer resumes from its prior value, not from zero.
    w.request_state(GameState::Game);
    s.run_tick(&mut w, 0);
    s.run_tick(&mut w, 500);
    assert!(w.is_live(e));
    assert_eq!(w.projectile(e).unwrap().timer.elapsed_ms, 1500);
    // The remaining 3.5 seconds finish the timer.
    s.run_tick(&mut w, 3500);
    assert!(!w.is_live(e));
}

#[test]
fn mid_tick_requests_reach_the_same_ticks_cleanup() {
    // Stepping a tick stage by stage lets the collaborators work mid-tick:
    // a shot fired during the shoot stage and a transition requested by the
    // contact stage are committed and applied by this very tick's transition
    // and cleanup stages.
    let (s, stages) = standard_pipeline();
    let mut w = World::new(GameState::Game);
    let order = [
        stages.post_physics,
        stages.follow,
        stages.shoot,
        stages.handle_contact,
        stages.handle_explosion,
        stages.handle_run_state,
        stages.cleanup,
    ];
    let mut shot = None;
    for stage in order {
        if stage == stages.shoot {
            let e = w.spawn_projectile(origin(), fire_orientation());
            assert!(w.is_pending(e));
            assert!(!w.is_live(e));
            shot = Some(e);
        }
        if stage == stages.handle_contact {
            w.request_state(GameState::Pause);
        }
        s.run_stage(&mut w, stage, 16);
    }
    let e = shot.unwrap();
    assert_eq!(w.current_state(), GameState::Pause);
    assert!(w.is_live(e));
}

#[test]
fn scenario_scope_across_all_modes() {
    let (s, stages) = standard_pipeline();
    let mut w = World::new(GameState::StartMenu);
    // Two witnesses the registry must never touch: one without any scope,
    // one whose scope contains every mode, the start menu included.
    let keeper = w.spawn_entity(None);
    let eternal = w.spawn_entity(Some(StateScope {
        start_menu: true,
        game: true,
        pause: true,
        game_over: true,
    }));
    s.run_tick(&mut w, 16);
    w.request_state(GameState::Game);
    s.run_tick(&mut w, 16);
    assert_eq!(w.current_state(), GameState::Game);
    // Three projectiles; zero-length ticks from here on so their own timers
    // play no part in the scenario.
    let p1 = w.spawn_projectile(origin(), fire_orientation());
    let p2 = w.spawn_projectile(Vec3 { x: 1000, y: 0, z: 0 }, fire_orientation());
    let p3 = w.spawn_projectile(Vec3 { x: 2000, y: 0, z: 0 }, fire_orientation());
    s.run_tick(&mut w, 0);
    // Pause: projectiles persist (their scope includes Pause).
    w.request_state(GameState::Pause);
    s.run_tick(&mut w, 0);
    assert_eq!(w.current_state(), GameState::Pause);
    assert!(w.is_live(p1) && w.is_live(p2) && w.is_live(p3));
    // Game over: they persist too.
    w.request_state(GameState::GameOver);
    s.run_tick(&mut w, 0);
    assert_eq!(w.current_state(), GameState::GameOver);
    assert!(w.is_live(p1) && w.is_live(p2) && w.is_live(p3));
    // Back at the start menu: the first cleanup after the transition destroys
    // all three, exactly once each, and nothing else. The final tick is
    // stepped stage by stage so the cleanup's release count is observable:
    // the cleanup stage's one system is exactly this command application.
    w.request_state(GameState::StartMenu);
    for stage in [
        stages.post_physics,
        stages.follow,
        stages.shoot,
        stages.handle_contact,
        stages.handle_explosion,
        stages.handle_run_state,
    ] {
        s.run_stage(&mut w, stage, 0);
    }
    assert_eq!(w.current_state(), GameState::StartMenu);
    assert!(w.is_live(p1) && w.is_live(p2) && w.is_live(p3));
    let released = w.apply_commands();
    assert_eq!(released, 3);
    assert!(!w.is_live(p1) && !w.is_live(p2) && !w.is_live(p3));
    assert!(w.is_live(keeper));
    assert!(w.is_live(eternal));
}
