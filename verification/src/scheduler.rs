//! The staged scheduler: an ordered graph of stages, each holding the systems
//! registered into it, driven once per tick in a fixed, deterministic order.
//!
//! Every stage except the first is declared strictly after an existing
//! predecessor, so edges always point at earlier stages and the graph is
//! acyclic by construction; declaring a stage after an unknown predecessor is
//! the one configuration error, reported at build time and never at runtime.
//! The execution order — declaration order — is a topological order of the
//! declared edges, and it is the one a tie-breaking walk (always picking the
//! earliest-declared ready stage) would produce. It is computed from the
//! registration sequence alone, so two schedulers built by the same sequence
//! of calls run their ticks identically.

use vstd::prelude::*;

use crate::state::GameState;
use crate::world::{
    apply_spec, fsm_spec, tick_timers_spec, World, WorldView,
};

verus! {

/// Identifier of the projectile timer system in the standard pipeline.
pub const TIMER_SYSTEM_ID: u64 = 1;

/// Identifier of the state-transition system in the standard pipeline.
pub const FSM_SYSTEM_ID: u64 = 2;

/// Identifier of the cleanup system in the standard pipeline.
pub const CLEANUP_SYSTEM_ID: u64 = 3;

/// What a registered system does when its turn comes. The three built-in
/// kinds carry the core's verified passes; an external system stands for work
/// a collaborator performs outside the world model (physics advance, contact
/// handling, input, presentation) and only marks its slot in the tick's trace.
#[derive(Clone, Copy, PartialEq, Eq, Structural, Debug)]
pub enum SystemKind {
    /// The projectile timer pass ([`World::tick_timers`]).
    TickTimers,
    /// The transition system and lifecycle registry ([`World::run_state_fsm`]).
    RunStateFsm,
    /// The command-buffer application ([`World::apply_commands`]).
    ApplyCommands,
    /// A collaborator's system, outside the world model.
    External,
}

/// One registered system: a caller-chosen identifier (recorded in the tick
/// trace), what it does, and an optional mode gate — the system runs only
/// when the current mode matches, evaluated at the moment its turn comes.
#[derive(Clone, Copy, PartialEq, Eq, Structural, Debug)]
pub struct SystemEntry {
    pub id: u64,
    pub kind: SystemKind,
    pub only_in: Option<GameState>,
}

/// One stage: its predecessor edge (absent only for the first stage) and the
/// systems registered into it, in registration order.
pub struct Stage {
    pub after: Option<usize>,
    pub systems: Vec<SystemEntry>,
}

/// The configuration error: a stage or predecessor reference that names no
/// declared stage. Reported at build time; never a runtime condition.
#[derive(Clone, Copy, PartialEq, Eq, Structural, Debug)]
pub enum ConfigError {
    UnknownStage(usize),
}

/// The staged scheduler. A `usize` returned by [`Scheduler::declare_stage`]
/// is a stage reference: the stage's position in declaration order.
pub struct Scheduler {
    pub stages: Vec<Stage>,
}

/// A well-formed stage list: the first stage is the root (no predecessor) and
/// every later stage's predecessor was declared before it, so each declared
/// edge points backwards and declaration order is a topological order.
pub open spec fn stages_well_formed(stages: Seq<Stage>) -> bool {
    &&& stages.len() >= 1
    &&& forall|i: int|
        0 <= i < stages.len() ==> match #[trigger] stages[i].after {
            Option::Some(j) => i > 0 && j < i,
            Option::None => i == 0,
        }
}

/// Whether a mode gate lets a system run under the current mode.
pub open spec fn gate_open(current: GameState, only_in: Option<GameState>) -> bool {
    match only_in {
        Option::None => true,
        Option::Some(s) => s == current,
    }
}

/// The world after one system takes its turn: a closed gate skips it; an open
/// gate runs its kind's pass. An external system leaves the world unchanged —
/// its work happens outside the model.
pub open spec fn step_world(w: WorldView, e: SystemEntry, dt: u64) -> WorldView {
    if gate_open(w.run_state.current, e.only_in) {
        match e.kind {
            SystemKind::TickTimers => tick_timers_spec(w, dt),
            SystemKind::RunStateFsm => fsm_spec(w),
            SystemKind::ApplyCommands => apply_spec(w),
            SystemKind::External => w,
        }
    } else {
        w
    }
}

/// All registered systems in execution order: stage by stage in declaration
/// order, within a stage in registration order.
pub open spec fn all_systems(stages: Seq<Stage>) -> Seq<SystemEntry>
    decreases stages.len(),
{
    if stages.len() == 0 {
        Seq::<SystemEntry>::empty()
    } else {
        all_systems(stages.drop_last()) + stages.last().systems@
    }
}

/// The world after a sequence of systems takes its turns in order.
pub open spec fn run_systems_world(w: WorldView, entries: Seq<SystemEntry>, dt: u64) -> WorldView
    decreases entries.len(),
{
    if entries.len() == 0 {
        w
    } else {
        step_world(run_systems_world(w, entries.drop_last(), dt), entries.last(), dt)
    }
}

/// The tick's trace: the identifiers of the systems that actually ran, in
/// order. A system whose gate was closed at its turn leaves no mark. The
/// trace is a function of the initial world and the registration sequence
/// alone, so it is identical across repeated runs.
pub open spec fn run_systems_trace(w: WorldView, entries: Seq<SystemEntry>, dt: u64) -> Seq<u64>
    decreases entries.len(),
{
    if entries.len() == 0 {
        Seq::<u64>::empty()
    } else {
        let before = run_systems_world(w, entries.drop_last(), dt);
        run_systems_trace(w, entries.drop_last(), dt) + if gate_open(
            before.run_state.current,
            entries.last().only_in,
        ) {
            seq![entries.last().id]
        } else {
            Seq::<u64>::empty()
        }
    }
}

/// Running a concatenation of system sequences is running the first, then
/// the second from the world the first left behind; the traces concatenate
/// in the same order. This is what lets a driver step a tick stage by stage
/// — interleaving its own collaborator work between stages — and still land
/// exactly where one [`Scheduler::run_tick`] would, stage traces included.
pub proof fn lemma_run_systems_concat(
    w: WorldView,
    a: Seq<SystemEntry>,
    b: Seq<SystemEntry>,
    dt: u64,
)
    ensures
        run_systems_world(w, a + b, dt) == run_systems_world(
            run_systems_world(w, a, dt),
            b,
            dt,
        ),
        run_systems_trace(w, a + b, dt) == run_systems_trace(w, a, dt) + run_systems_trace(
            run_systems_world(w, a, dt),
            b,
            dt,
        ),
    decreases b.len(),
{
    let mid = run_systems_world(w, a, dt);
    if b.len() == 0 {
        assert(a + b =~= a);
        assert(run_systems_trace(w, a, dt) + run_systems_trace(mid, b, dt) =~= run_systems_trace(
            w,
            a,
            dt,
        ));
    } else {
        lemma_run_systems_concat(w, a, b.drop_last(), dt);
        assert((a + b).drop_last() =~= a + b.drop_last());
        assert((a + b).last() == b.last());
        let before = run_systems_world(w, a + b.drop_last(), dt);
        let head = if gate_open(before.run_state.current, b.last().only_in) {
            seq![b.last().id]
        } else {
            Seq::<u64>::empty()
        };
        assert(run_systems_trace(w, a + b, dt) == run_systems_trace(w, a + b.drop_last(), dt)
            + head);
        assert(run_systems_trace(mid, b, dt) == run_systems_trace(mid, b.drop_last(), dt) + head);
        assert(run_systems_trace(w, a, dt) + (run_systems_trace(mid, b.drop_last(), dt) + head)
            =~= (run_systems_trace(w, a, dt) + run_systems_trace(mid, b.drop_last(), dt)) + head);
    }
}

impl Scheduler {
    /// A scheduler holding only the root stage, returned as stage reference 0.
    /// Every other stage is declared after an existing one.
    pub fn new() -> (s: Scheduler)
        ensures
            s.stages@.len() == 1,
            s.stages@[0].after is None,
            s.stages@[0].systems@ == Seq::<SystemEntry>::empty(),
            stages_well_formed(s.stages@),
    {
        let mut stages: Vec<Stage> = Vec::new();
        stages.push(Stage { after: Option::None, systems: Vec::new() });
        Scheduler { stages }
    }

    /// The number of declared stages. Valid stage references are below it.
    pub fn stage_count(&self) -> (n: usize)
        ensures
            n == self.stages@.len(),
    {
        self.stages.len()
    }

    /// Declare a new stage ordered strictly after the given predecessor and
    /// return its reference. A predecessor that names no declared stage is a
    /// configuration error and leaves the scheduler unchanged; since every
    /// accepted edge points at an earlier stage, no sequence of declarations
    /// can form a cycle.
    pub fn declare_stage(&mut self, after: usize) -> (r: Result<usize, ConfigError>)
        ensures
            after < old(self).stages@.len() ==> {
                &&& r == Result::<usize, ConfigError>::Ok(old(self).stages@.len() as usize)
                &&& final(self).stages@.len() == old(self).stages@.len() + 1
                &&& forall|i: int|
                    0 <= i < old(self).stages@.len() ==> final(self).stages@[i]
                        == old(self).stages@[i]
                &&& final(self).stages@.last().after == Option::Some(after)
                &&& final(self).stages@.last().systems@ == Seq::<SystemEntry>::empty()
            },
            after >= old(self).stages@.len() ==> {
                &&& r == Result::<usize, ConfigError>::Err(ConfigError::UnknownStage(after))
                &&& final(self).stages@ == old(self).stages@
            },
            stages_well_formed(old(self).stages@) ==> stages_well_formed(final(self).stages@),
    {
        let n = self.stages.len();
        if after < n {
            self.stages.push(Stage { after: Option::Some(after), systems: Vec::new() });
            Ok(n)
        } else {
            Err(ConfigError::UnknownStage(after))
        }
    }

    /// Register a system into a stage. Within its stage the system runs after
    /// everything registered earlier; the optional gate restricts it to ticks
    /// whose current mode matches at the moment of its turn. A stage
    /// reference that names no declared stage is a configuration error and
    /// leaves the scheduler unchanged.
    pub fn register_system(
        &mut self,
        stage: usize,
        id: u64,
        kind: SystemKind,
        only_in: Option<GameState>,
    ) -> (r: Result<(), ConfigError>)
        ensures
            stage < old(self).stages@.len() ==> {
                &&& r == Result::<(), ConfigError>::Ok(())
                &&& final(self).stages@.len() == old(self).stages@.len()
                &&& forall|i: int|
                    0 <= i < old(self).stages@.len() && i != stage ==> final(self).stages@[i]
                        == old(self).stages@[i]
                &&& final(self).stages@[stage as int].after
                    == old(self).stages@[stage as int].after
                &&& final(self).stages@[stage as int].systems@
                    == old(self).stages@[stage as int].systems@.push(
                    SystemEntry { id, kind, only_in },
                )
            },
            stage >= old(self).stages@.len() ==> {
                &&& r == Result::<(), ConfigError>::Err(ConfigError::UnknownStage(stage))
                &&& final(self).stages@ == old(self).stages@
            },
            stages_well_formed(old(self).stages@) ==> stages_well_formed(final(self).stages@),
    {
        let n = self.stages.len();
        if stage < n {
            let mut st = self.stages.remove(stage);
            st.systems.push(SystemEntry { id, kind, only_in });
            self.stages.insert(stage, st);
            proof {
                assert(forall|i: int|
                    0 <= i < old(self).stages@.len() && i != stage ==> final(self).stages@[i]
                        == old(self).stages@[i]);
            }
            Ok(())
        } else {
            Err(ConfigError::UnknownStage(stage))
        }
    }

    /// Run one stage of a tick: its systems in registration order, each
    /// gated on the mode current at its turn. A driver stepping stage by
    /// stage can do its collaborators' work — spawn entities, request
    /// transitions — between stages, so requests raised mid-tick (say, from
    /// the contact stage) reach the same tick's transition and cleanup
    /// stages; [`lemma_run_systems_concat`] glues the stage runs back into
    /// the whole-tick interpreter. Returns the trace of the systems that ran.
    pub fn run_stage(&self, world: &mut World, stage: usize, dt_ms: u64) -> (trace: Vec<u64>)
        requires
            stage < self.stages@.len(),
        ensures
            final(world)@ == run_systems_world(
                old(world)@,
                self.stages@[stage as int].systems@,
                dt_ms,
            ),
            trace@ == run_systems_trace(old(world)@, self.stages@[stage as int].systems@, dt_ms),
    {
        let ghost w0 = world@;
        let mut trace: Vec<u64> = Vec::new();
        let system_count = self.stages[stage].systems.len();
        let mut j: usize = 0;
        while j < system_count
            invariant
                stage < self.stages@.len(),
                j <= system_count,
                system_count == self.stages@[stage as int].systems@.len(),
                world@ == run_systems_world(
                    w0,
                    self.stages@[stage as int].systems@.take(j as int),
                    dt_ms,
                ),
                trace@ == run_systems_trace(
                    w0,
                    self.stages@[stage as int].systems@.take(j as int),
                    dt_ms,
                ),
            decreases system_count - j,
        {
            let ghost before = self.stages@[stage as int].systems@.take(j as int);
            let entry = self.stages[stage].systems[j];
            let gate = match entry.only_in {
                Option::None => true,
                Option::Some(s) => {
                    let c = world.current_state();
                    s == c
                },
            };
            if gate {
                match entry.kind {
                    SystemKind::TickTimers => world.tick_timers(dt_ms),
                    SystemKind::RunStateFsm => {
                        let _transition = world.run_state_fsm();
                    },
                    SystemKind::ApplyCommands => {
                        let _released = world.apply_commands();
                    },
                    SystemKind::External => {},
                }
                trace.push(entry.id);
            }
            proof {
                let now = self.stages@[stage as int].systems@.take(j as int + 1);
                assert(now =~= before.push(entry));
                assert(now.drop_last() =~= before);
            }
            j = j + 1;
        }
        proof {
            assert(self.stages@[stage as int].systems@.take(system_count as int)
                =~= self.stages@[stage as int].systems@);
        }
        trace
    }

    /// Run one tick: visit the stages in declaration order and, within each
    /// stage, the systems in registration order; a system whose gate matches
    /// the mode current at its turn runs, the rest are skipped. The cleanup
    /// system is registered in the final stage, so every mutation queued
    /// during the tick — spawns and destroys alike — is applied exactly once,
    /// at the tick's fixed end. Returns the trace of the systems that ran.
    pub fn run_tick(&self, world: &mut World, dt_ms: u64) -> (trace: Vec<u64>)
        ensures
            final(world)@ == run_systems_world(old(world)@, all_systems(self.stages@), dt_ms),
            trace@ == run_systems_trace(old(world)@, all_systems(self.stages@), dt_ms),
    {
        let ghost w0 = world@;
        let mut trace: Vec<u64> = Vec::new();
        let stage_count = self.stages.len();
        let mut i: usize = 0;
        while i < stage_count
            invariant
                i <= stage_count,
                stage_count == self.stages@.len(),
                world@ == run_systems_world(
                    w0,
                    all_systems(self.stages@.take(i as int)),
                    dt_ms,
                ),
                trace@ == run_systems_trace(
                    w0,
                    all_systems(self.stages@.take(i as int)),
                    dt_ms,
                ),
            decreases stage_count - i,
        {
            let ghost done = all_systems(self.stages@.take(i as int));
            let system_count = self.stages[i].systems.len();
            let mut j: usize = 0;
            while j < system_count
                invariant
                    i < stage_count,
                    stage_count == self.stages@.len(),
                    j <= system_count,
                    system_count == self.stages@[i as int].systems@.len(),
                    done == all_systems(self.stages@.take(i as int)),
                    world@ == run_systems_world(
                        w0,
                        done + self.stages@[i as int].systems@.take(j as int),
                        dt_ms,
                    ),
                    trace@ == run_systems_trace(
                        w0,
                        done + self.stages@[i as int].systems@.take(j as int),
                        dt_ms,
                    ),
                decreases system_count - j,
            {
                let ghost before = done + self.stages@[i as int].systems@.take(j as int);
                let entry = self.stages[i].systems[j];
                let gate = match entry.only_in {
                    Option::None => true,
                    Option::Some(s) => {
                        let c = world.current_state();
                        s == c
                    },
                };
                if gate {
                    match entry.kind {
                        SystemKind::TickTimers => world.tick_timers(dt_ms),
                        SystemKind::RunStateFsm => {
                            let _transition = world.run_state_fsm();
                        },
                        SystemKind::ApplyCommands => {
                            let _released = world.apply_commands();
                        },
                        SystemKind::External => {},
                    }
                    trace.push(entry.id);
                }
                proof {
                    let now = done + self.stages@[i as int].systems@.take(j as int + 1);
                    assert(now =~= before.push(entry));
                    assert(now.drop_last() =~= before);
                }
                j = j + 1;
            }
            proof {
                let taken = self.stages@.take(i as int + 1);
                assert(taken.drop_last() =~= self.stages@.take(i as int));
                assert(all_systems(taken) == done + taken.last().systems@);
                assert(self.stages@[i as int].systems@.take(system_count as int)
                    =~= self.stages@[i as int].systems@);
            }
            i = i + 1;
        }
        proof {
            assert(self.stages@.take(stage_count as int) =~= self.stages@);
        }
        trace
    }
}

/// References to the stages of the standard pipeline, in their declared
/// order: one branch `post_physics → follow → shoot` and, sharing the same
/// root, `post_physics → handle_contact → handle_explosion →
/// handle_run_state → cleanup`, with cleanup the last stage of the whole
/// tick.
#[derive(Clone, Copy, PartialEq, Eq, Structural, Debug)]
pub struct PipelineStages {
    pub post_physics: usize,
    pub follow: usize,
    pub shoot: usize,
    pub handle_contact: usize,
    pub handle_explosion: usize,
    pub handle_run_state: usize,
    pub cleanup: usize,
}

/// Build the standard pipeline: the seven stages in their fixed order, the
/// projectile timer pass in the root stage, the transition system in the
/// handle-run-state stage, and the command-buffer application in the final
/// cleanup stage. Collaborators register their own (external) systems into
/// the follow, shoot, contact and explosion stages.
pub fn standard_pipeline() -> (r: (Scheduler, PipelineStages))
    ensures
        stages_well_formed(r.0.stages@),
        r.0.stages@.len() == 7,
        r.1 == (PipelineStages {
            post_physics: 0usize,
            follow: 1usize,
            shoot: 2usize,
            handle_contact: 3usize,
            handle_explosion: 4usize,
            handle_run_state: 5usize,
            cleanup: 6usize,
        }),
        r.0.stages@[0].after == Option::<usize>::None,
        r.0.stages@[1].after == Option::Some(0usize),
        r.0.stages@[2].after == Option::Some(1usize),
        r.0.stages@[3].after == Option::Some(0usize),
        r.0.stages@[4].after == Option::Some(3usize),
        r.0.stages@[5].after == Option::Some(4usize),
        r.0.stages@[6].after == Option::Some(5usize),
        r.0.stages@[0].systems@ == seq![
            SystemEntry {
                id: TIMER_SYSTEM_ID,
                kind: SystemKind::TickTimers,
                only_in: Option::<GameState>::None,
            },
        ],
        r.0.stages@[1].systems@ == Seq::<SystemEntry>::empty(),
        r.0.stages@[2].systems@ == Seq::<SystemEntry>::empty(),
        r.0.stages@[3].systems@ == Seq::<SystemEntry>::empty(),
        r.0.stages@[4].systems@ == Seq::<SystemEntry>::empty(),
        r.0.stages@[5].systems@ == seq![
            SystemEntry {
                id: FSM_SYSTEM_ID,
                kind: SystemKind::RunStateFsm,
                only_in: Option::<GameState>::None,
            },
        ],
        r.0.stages@[6].systems@ == seq![
            SystemEntry {
                id: CLEANUP_SYSTEM_ID,
                kind: SystemKind::ApplyCommands,
                only_in: Option::<GameState>::None,
            },
        ],
{
    let mut s = Scheduler::new();
    let post_physics: usize = 0;
    let follow = match s.declare_stage(post_physics) {
        Ok(k) => k,
        Err(_) => vstd::pervasive::unreached(),
    };
    let shoot = match s.declare_stage(follow) {
        Ok(k) => k,
        Err(_) => vstd::pervasive::unreached(),
    };
    let handle_contact = match s.declare_stage(post_physics) {
        Ok(k) => k,
        Err(_) => vstd::pervasive::unreached(),
    };
    let handle_explosion = match s.declare_stage(handle_contact) {
        Ok(k) => k,
        Err(_) => vstd::pervasive::unreached(),
    };
    let handle_run_state = match s.declare_stage(handle_explosion) {
        Ok(k) => k,
        Err(_) => vstd::pervasive::unreached(),
    };
    let cleanup = match s.declare_stage(handle_run_state) {
        Ok(k) => k,
        Err(_) => vstd::pervasive::unreached(),
    };
    let timer_ok = s.register_system(
        post_physics,
        TIMER_SYSTEM_ID,
        SystemKind::TickTimers,
        Option::None,
    );
    let fsm_ok = s.register_system(
        handle_run_state,
        FSM_SYSTEM_ID,
        SystemKind::RunStateFsm,
        Option::None,
    );
    let cleanup_ok = s.register_system(
        cleanup,
        CLEANUP_SYSTEM_ID,
        SystemKind::ApplyCommands,
        Option::None,
    );
    proof {
        assert(timer_ok is Ok && fsm_ok is Ok && cleanup_ok is Ok);
    }
    let refs = PipelineStages {
        post_physics,
        follow,
        shoot,
        handle_contact,
        handle_explosion,
        handle_run_state,
        cleanup,
    };
    (s, refs)
}

} // verus!
