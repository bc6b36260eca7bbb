//! The world: generation-checked entity slots, state-scoped lifecycles, the
//! projectile subsystem's timers, and the command buffer of deferred
//! mutations — spawns and destroys — applied exactly once per tick,
//! atomically, at the cleanup stage.

use vstd::prelude::*;
use vstd::pervasive::VecAdditionalExecFns;

use crate::pose::{AxisAngle, Pose2, Vec3, Velocity, PROJECTILE_SPEED};
use crate::pose::project_spec;
use crate::pose::{project, velocity_from_angle};
use crate::state::{commit_spec, committed_transition, GameState, RunState};

verus! {

/// Lifetime of a projectile's self-destruction timer, in milliseconds.
pub const PROJECTILE_TIMER_MS: u64 = 5000;

/// Half-extents of a projectile's sensor collider, in thousandths of a unit.
pub const COLLIDER_HALF_WIDTH_MILLI: i64 = 250;
pub const COLLIDER_HALF_HEIGHT_MILLI: i64 = 1000;

/// Presentation hints carried by a projectile's creation request: depth
/// offset relative to the scene and uniform scale, both in thousandths.
pub const PROJECTILE_DEPTH_MILLI: i64 = -4000;
pub const PROJECTILE_SCALE_MILLI: i64 = 500;

/// The set of modes in which an entity remains alive. On entering a mode
/// outside the set, the lifecycle registry queues the entity's destruction.
#[derive(Clone, Copy, PartialEq, Eq, Structural, Debug)]
pub struct StateScope {
    pub start_menu: bool,
    pub game: bool,
    pub pause: bool,
    pub game_over: bool,
}

impl StateScope {
    /// Whether the scope contains the given mode.
    pub open spec fn spec_contains(self, s: GameState) -> bool {
        match s {
            GameState::StartMenu => self.start_menu,
            GameState::Game => self.game,
            GameState::Pause => self.pause,
            GameState::GameOver => self.game_over,
        }
    }

    /// Whether the scope contains the given mode.
    pub fn contains(&self, s: GameState) -> (r: bool)
        ensures
            r == self.spec_contains(s),
    {
        match s {
            GameState::StartMenu => self.start_menu,
            GameState::Game => self.game,
            GameState::Pause => self.pause,
            GameState::GameOver => self.game_over,
        }
    }
}

/// The scope every projectile is spawned with: it persists through pause and
/// game over, but not back at the start menu.
pub open spec fn projectile_scope() -> StateScope {
    StateScope { start_menu: false, game: true, pause: true, game_over: true }
}

/// Build the scope every projectile is spawned with.
pub fn make_projectile_scope() -> (s: StateScope)
    ensures
        s == projectile_scope(),
{
    StateScope { start_menu: false, game: true, pause: true, game_over: true }
}

/// A one-shot countdown timer, in milliseconds.
#[derive(Clone, Copy, PartialEq, Eq, Structural, Debug)]
pub struct Timer {
    pub duration_ms: u64,
    pub elapsed_ms: u64,
}

/// Whether the timer has run to completion.
pub open spec fn timer_finished(t: Timer) -> bool {
    t.elapsed_ms >= t.duration_ms
}

/// Addition on u64 that stops at the largest representable value.
pub open spec fn sat_add_u64(a: u64, b: u64) -> u64 {
    if a + b > u64::MAX {
        u64::MAX
    } else {
        (a + b) as u64
    }
}

/// The timer after `dt` more milliseconds have passed. The prior elapsed time
/// is kept: advancing never resets.
pub open spec fn advanced(t: Timer, dt: u64) -> Timer {
    Timer { duration_ms: t.duration_ms, elapsed_ms: sat_add_u64(t.elapsed_ms, dt) }
}

/// A generation-checked handle to a world slot. A handle to a slot that has
/// since been released and recycled carries a stale generation, so it is
/// detected and ignored rather than touching the slot's new occupant.
#[derive(Clone, Copy, PartialEq, Eq, Structural, Debug)]
pub struct Entity {
    pub index: usize,
    pub generation: u64,
}

/// The projectile component: planar pose, polar velocity, and the one-shot
/// self-destruction timer.
#[derive(Clone, Copy, PartialEq, Eq, Structural, Debug)]
pub struct Projectile {
    pub pose: Pose2,
    pub vel: Velocity,
    pub timer: Timer,
}

/// What a slot currently holds. A spawn claims its slot at the call — so the
/// returned handle is settled and cannot be claimed twice — but the slot is
/// only `Reserved` until the cleanup stage applies the queued creation;
/// queries treat a reserved slot exactly like a free one.
#[derive(Clone, Copy, PartialEq, Eq, Structural, Debug)]
pub enum SlotState {
    /// Unoccupied; may be recycled by a later spawn under a fresh generation.
    Free,
    /// Claimed by a spawn queued this tick; live from the next cleanup on.
    Reserved,
    /// Occupied by a live entity.
    Live,
}

/// One entity slot: its current generation, what it holds, and the live
/// occupant's components.
#[derive(Clone, Copy, PartialEq, Eq, Structural, Debug)]
pub struct Slot {
    pub generation: u64,
    pub state: SlotState,
    pub scope: Option<StateScope>,
    pub projectile: Option<Projectile>,
}

/// A deferred mutation in the command buffer: create the entity reserved
/// under `target` with the given components, or destroy a live entity. All
/// commands queued during a tick are applied in order, atomically, at the
/// cleanup stage.
#[derive(Clone, Copy, PartialEq, Eq, Structural, Debug)]
pub enum Command {
    Spawn { target: Entity, scope: Option<StateScope>, projectile: Option<Projectile> },
    Destroy(Entity),
}

/// A request to the physics backend for a dynamic body at a pose with a
/// linear velocity, paired with a sensor collider (overlap detection without
/// collision response) of fixed half-extents, plus the presentation hints the
/// renderer consumes.
#[derive(Clone, Copy, PartialEq, Eq, Structural, Debug)]
pub struct BodyRequest {
    pub pose: Pose2,
    pub vel: Velocity,
    pub half_width_milli: i64,
    pub half_height_milli: i64,
    pub sensor: bool,
    pub depth_milli: i64,
    pub scale_milli: i64,
}

/// An outward request the core accumulates for its collaborators to perform:
/// creating a physics body, or playing the fire sound (fire and forget; a
/// playback failure is not observable to the core).
#[derive(Clone, Copy, PartialEq, Eq, Structural, Debug)]
pub enum EffectRequest {
    SpawnBody(BodyRequest),
    PlayFireSound,
}

/// The mathematical value of a [`World`].
pub ghost struct WorldView {
    pub slots: Seq<Slot>,
    pub run_state: RunState,
    pub buffer: Seq<Command>,
    pub effects: Seq<EffectRequest>,
}

/// The world: the entity slots, the shared run state, the command buffer of
/// deferred spawns and destroys, and the queue of outward effect requests.
pub struct World {
    pub slots: Vec<Slot>,
    pub run_state: RunState,
    pub buffer: Vec<Command>,
    pub effects: Vec<EffectRequest>,
}

impl View for World {
    type V = WorldView;

    open spec fn view(&self) -> WorldView {
        WorldView {
            slots: self.slots@,
            run_state: self.run_state,
            buffer: self.buffer@,
            effects: self.effects@,
        }
    }
}

/// Whether the handle refers to a live entity: the slot exists, the
/// generations agree, and the slot holds a live occupant.
pub open spec fn live_at(slots: Seq<Slot>, e: Entity) -> bool {
    &&& e.index < slots.len()
    &&& slots[e.index as int].generation == e.generation
    &&& slots[e.index as int].state is Live
}

/// Whether the handle refers to a reserved slot: claimed by a queued spawn,
/// live from the next cleanup on.
pub open spec fn reserved_at(slots: Seq<Slot>, e: Entity) -> bool {
    &&& e.index < slots.len()
    &&& slots[e.index as int].generation == e.generation
    &&& slots[e.index as int].state is Reserved
}

/// Whether the command is a queued creation targeting the given slot index.
pub open spec fn spawns_into(c: Command, index: usize) -> bool {
    match c {
        Command::Spawn { target, scope, projectile } => target.index == index,
        Command::Destroy(_) => false,
    }
}

// ---------------------------------------------------------------------------
// Spawning: the first recyclable slot is claimed under a fresh generation —
// when none exists a new slot is appended — and the creation itself is queued
// in the command buffer for the cleanup stage.
// ---------------------------------------------------------------------------

/// Whether a slot can be claimed by a new spawn: it is free and its
/// generation counter has room to grow (a slot whose counter is exhausted is
/// retired).
pub open spec fn reusable(s: Slot) -> bool {
    s.state is Free && s.generation < u64::MAX
}

/// Index of the first reusable slot at or after `i`, or the length when none.
pub open spec fn first_reusable_from(slots: Seq<Slot>, i: int) -> int
    decreases slots.len() - i,
{
    if i < 0 || i >= slots.len() {
        slots.len() as int
    } else if reusable(slots[i]) {
        i
    } else {
        first_reusable_from(slots, i + 1)
    }
}

/// The handle the next spawn returns: the first reusable slot under its next
/// generation, or a fresh slot at the end under generation zero. The handle
/// is a function of the slots alone, so it is settled at the spawn call even
/// though the creation is applied only at cleanup.
pub open spec fn spawn_target(slots: Seq<Slot>) -> Entity {
    let k = first_reusable_from(slots, 0);
    if k < slots.len() {
        Entity { index: k as usize, generation: (slots[k].generation + 1) as u64 }
    } else {
        Entity { index: slots.len() as usize, generation: 0 }
    }
}

/// The slots after a spawn claims its target: the slot is reserved under the
/// fresh generation, its components pending in the command buffer.
pub open spec fn reserve_slot_spec(slots: Seq<Slot>) -> Seq<Slot> {
    let e = spawn_target(slots);
    let slot = Slot {
        generation: e.generation,
        state: SlotState::Reserved,
        scope: Option::None,
        projectile: Option::None,
    };
    if e.index < slots.len() {
        slots.update(e.index as int, slot)
    } else {
        slots.push(slot)
    }
}

// ---------------------------------------------------------------------------
// The projectile subsystem's timer pass.
// ---------------------------------------------------------------------------

/// A slot after one timer pass: a live projectile's timer advances by `dt`;
/// everything else — free slots, reserved slots whose creation is still
/// queued, live entities without a projectile — is untouched.
pub open spec fn tick_slot(s: Slot, dt: u64) -> Slot {
    if s.state is Live {
        match s.projectile {
            Option::Some(p) => Slot {
                generation: s.generation,
                state: s.state,
                scope: s.scope,
                projectile: Option::Some(
                    Projectile { pose: p.pose, vel: p.vel, timer: advanced(p.timer, dt) },
                ),
            },
            Option::None => s,
        }
    } else {
        s
    }
}

/// Whether a slot's live projectile's timer completes within this pass.
pub open spec fn expires_now(s: Slot, dt: u64) -> bool {
    s.state is Live && match s.projectile {
        Option::Some(p) => timer_finished(advanced(p.timer, dt)),
        Option::None => false,
    }
}

/// All slots after one timer pass.
pub open spec fn ticked_slots(slots: Seq<Slot>, dt: u64) -> Seq<Slot> {
    Seq::new(slots.len(), |i: int| tick_slot(slots[i], dt))
}

/// The destroy commands one timer pass queues, in slot order, over the first
/// `n` slots: one per live projectile whose timer completes.
pub open spec fn expired_upto(slots: Seq<Slot>, dt: u64, n: int) -> Seq<Command>
    decreases n,
{
    if n <= 0 {
        Seq::<Command>::empty()
    } else {
        expired_upto(slots, dt, n - 1) + if expires_now(slots[n - 1], dt) {
            seq![
                Command::Destroy(
                    Entity { index: (n - 1) as usize, generation: slots[n - 1].generation },
                ),
            ]
        } else {
            Seq::<Command>::empty()
        }
    }
}

/// The world after the projectile timer pass. The pass runs only in the Game
/// mode: in every other mode time is frozen and nothing changes, so paused
/// time never counts against a timer. In Game mode every live projectile's
/// timer advances by `dt` and each completed timer queues a destroy command;
/// destruction itself is deferred to the cleanup stage.
pub open spec fn tick_timers_spec(w: WorldView, dt: u64) -> WorldView {
    if w.run_state.current == GameState::Game {
        WorldView {
            slots: ticked_slots(w.slots, dt),
            run_state: w.run_state,
            buffer: w.buffer + expired_upto(w.slots, dt, w.slots.len() as int),
            effects: w.effects,
        }
    } else {
        w
    }
}

// ---------------------------------------------------------------------------
// The transition system and the state-scoped lifecycle registry.
// ---------------------------------------------------------------------------

/// Whether entering `entered` puts the slot's live occupant out of scope.
/// Entities without a scope are never destroyed by the registry.
pub open spec fn drops_out(s: Slot, entered: GameState) -> bool {
    s.state is Live && match s.scope {
        Option::Some(sc) => !sc.spec_contains(entered),
        Option::None => false,
    }
}

/// The destroy commands the lifecycle registry queues on entering `entered`,
/// in slot order, over the first `n` slots.
pub open spec fn out_of_scope_upto(slots: Seq<Slot>, entered: GameState, n: int) -> Seq<Command>
    decreases n,
{
    if n <= 0 {
        Seq::<Command>::empty()
    } else {
        out_of_scope_upto(slots, entered, n - 1) + if drops_out(slots[n - 1], entered) {
            seq![
                Command::Destroy(
                    Entity { index: (n - 1) as usize, generation: slots[n - 1].generation },
                ),
            ]
        } else {
            Seq::<Command>::empty()
        }
    }
}

/// The world after the transition system runs: a pending transition is
/// committed, the request is cleared, and the lifecycle registry queues a
/// destroy command for every live entity whose scope excludes the entered
/// mode. Without a pending transition (or with one into the current mode)
/// nothing changes, and the registry does not run.
pub open spec fn fsm_spec(w: WorldView) -> WorldView {
    match committed_transition(w.run_state) {
        Option::None => w,
        Option::Some(t) => WorldView {
            slots: w.slots,
            run_state: commit_spec(w.run_state),
            buffer: w.buffer + out_of_scope_upto(w.slots, t.1, w.slots.len() as int),
            effects: w.effects,
        },
    }
}

// ---------------------------------------------------------------------------
// The command buffer: deferred spawns and destroys, applied once per tick.
// ---------------------------------------------------------------------------

/// One command applied to the slots. A destroy releases its live target (the
/// slot freed, components dropped, generation kept for staleness checks); a
/// stale or repeated destroy changes nothing. A spawn makes its reserved
/// target live with the queued components; a spawn whose target is no longer
/// reserved changes nothing.
pub open spec fn apply_one(slots: Seq<Slot>, c: Command) -> Seq<Slot> {
    match c {
        Command::Destroy(e) => if live_at(slots, e) {
            slots.update(
                e.index as int,
                Slot {
                    generation: e.generation,
                    state: SlotState::Free,
                    scope: Option::None,
                    projectile: Option::None,
                },
            )
        } else {
            slots
        },
        Command::Spawn { target, scope, projectile } => if reserved_at(slots, target) {
            slots.update(
                target.index as int,
                Slot { generation: target.generation, state: SlotState::Live, scope, projectile },
            )
        } else {
            slots
        },
    }
}

/// The slots after applying the first `n` queued commands in order.
pub open spec fn apply_upto(slots: Seq<Slot>, buf: Seq<Command>, n: int) -> Seq<Slot>
    decreases n,
{
    if n <= 0 {
        slots
    } else {
        apply_one(apply_upto(slots, buf, n - 1), buf[n - 1])
    }
}

/// How many of the first `n` queued commands actually release a slot:
/// duplicate and stale destroys count for nothing, and spawns release
/// nothing.
pub open spec fn released_upto(slots: Seq<Slot>, buf: Seq<Command>, n: int) -> int
    decreases n,
{
    if n <= 0 {
        0int
    } else {
        released_upto(slots, buf, n - 1) + match buf[n - 1] {
            Command::Destroy(e) => if live_at(apply_upto(slots, buf, n - 1), e) {
                1int
            } else {
                0int
            },
            Command::Spawn { target, scope, projectile } => 0int,
        }
    }
}

/// The world after the cleanup stage: every command queued this tick —
/// spawns and destroys alike — is applied in order, atomically, then the
/// buffer is cleared.
pub open spec fn apply_spec(w: WorldView) -> WorldView {
    WorldView {
        slots: apply_upto(w.slots, w.buffer, w.buffer.len() as int),
        run_state: w.run_state,
        buffer: Seq::<Command>::empty(),
        effects: w.effects,
    }
}

/// How many slots the cleanup stage releases.
pub open spec fn released_count(w: WorldView) -> int {
    released_upto(w.slots, w.buffer, w.buffer.len() as int)
}

/// The projectile spawned from an origin position and orientation: its pose
/// is the planar projection of the origin, its velocity is the planar forward
/// vector rotated by the pose's angle at the fixed projectile speed, and its
/// timer has the fixed duration with nothing yet elapsed.
pub open spec fn new_projectile(pos: Vec3, orient: AxisAngle) -> Projectile {
    Projectile {
        pose: project_spec(pos, orient),
        vel: Velocity {
            speed: PROJECTILE_SPEED,
            angle_mdeg: project_spec(pos, orient).angle_mdeg,
        },
        timer: Timer { duration_ms: PROJECTILE_TIMER_MS, elapsed_ms: 0 },
    }
}

/// The physics-body request a projectile spawn queues: a dynamic body at the
/// projectile's pose and velocity, a sensor collider of the fixed
/// half-extents, and the fixed presentation hints.
pub open spec fn body_request_for(p: Projectile) -> BodyRequest {
    BodyRequest {
        pose: p.pose,
        vel: p.vel,
        half_width_milli: COLLIDER_HALF_WIDTH_MILLI,
        half_height_milli: COLLIDER_HALF_HEIGHT_MILLI,
        sensor: true,
        depth_milli: PROJECTILE_DEPTH_MILLI,
        scale_milli: PROJECTILE_SCALE_MILLI,
    }
}

impl World {
    /// An empty world that starts in the given mode.
    pub fn new(initial: GameState) -> (w: World)
        ensures
            w@.slots == Seq::<Slot>::empty(),
            w@.run_state == (RunState { current: initial, requested: Option::None }),
            w@.buffer == Seq::<Command>::empty(),
            w@.effects == Seq::<EffectRequest>::empty(),
    {
        World {
            slots: Vec::new(),
            run_state: RunState::new(initial),
            buffer: Vec::new(),
            effects: Vec::new(),
        }
    }

    /// The current mode.
    pub fn current_state(&self) -> (s: GameState)
        ensures
            s == self@.run_state.current,
    {
        self.run_state.current
    }

    /// Ask for a transition; committed by the transition stage later this
    /// tick. The last request written before that stage runs wins.
    pub fn request_state(&mut self, target: GameState)
        ensures
            final(self)@ == (WorldView {
                run_state: RunState {
                    current: old(self)@.run_state.current,
                    requested: Option::Some(target),
                },
                ..old(self)@
            }),
    {
        self.run_state.request(target);
    }

    /// Whether the handle refers to a live entity. Stale handles, and handles
    /// whose creation is still queued, are safe to query: they answer false.
    pub fn is_live(&self, e: Entity) -> (r: bool)
        ensures
            r == live_at(self@.slots, e),
    {
        if e.index < self.slots.len() {
            let s = self.slots[e.index];
            s.generation == e.generation && match s.state {
                SlotState::Live => true,
                _ => false,
            }
        } else {
            false
        }
    }

    /// Whether the handle's creation is queued but not yet applied: claimed
    /// by a spawn this tick, live from the cleanup stage on.
    pub fn is_pending(&self, e: Entity) -> (r: bool)
        ensures
            r == reserved_at(self@.slots, e),
    {
        if e.index < self.slots.len() {
            let s = self.slots[e.index];
            s.generation == e.generation && match s.state {
                SlotState::Reserved => true,
                _ => false,
            }
        } else {
            false
        }
    }

    /// The projectile component of a live entity, if it has one.
    pub fn projectile(&self, e: Entity) -> (r: Option<Projectile>)
        ensures
            live_at(self@.slots, e) ==> r == self@.slots[e.index as int].projectile,
            !live_at(self@.slots, e) ==> r is None,
    {
        if e.index < self.slots.len() {
            let s = self.slots[e.index];
            if s.generation == e.generation {
                match s.state {
                    SlotState::Live => s.projectile,
                    _ => Option::None,
                }
            } else {
                Option::None
            }
        } else {
            Option::None
        }
    }

    /// Queue a destroy command for the entity. Destruction is deferred to the
    /// cleanup stage, so systems later in the same tick still see the entity;
    /// duplicate and stale requests collapse to nothing when applied.
    pub fn queue_destroy(&mut self, e: Entity)
        ensures
            final(self)@ == (WorldView {
                buffer: old(self)@.buffer.push(Command::Destroy(e)),
                ..old(self)@
            }),
    {
        self.buffer.push(Command::Destroy(e));
    }

    /// Claim the spawn target: recycle the first reusable slot under a fresh
    /// generation, or append a new slot, leaving it reserved for the queued
    /// creation.
    #[verifier::loop_isolation(false)]
    fn reserve(&mut self) -> (e: Entity)
        ensures
            e == spawn_target(old(self)@.slots),
            final(self)@ == (WorldView { slots: reserve_slot_spec(old(self)@.slots), ..old(self)@ }),
            reserved_at(final(self)@.slots, e),
    {
        let ghost slots0 = self@.slots;
        let ghost w0 = self@;
        let n = self.slots.len();
        let mut i: usize = 0;
        while i < n
            invariant
                i <= n,
                n == self.slots.len(),
                self@ == w0,
                self@.slots == slots0,
                first_reusable_from(slots0, 0) == first_reusable_from(slots0, i as int),
            decreases n - i,
        {
            let s = self.slots[i];
            let free = match s.state {
                SlotState::Free => true,
                _ => false,
            };
            if free && s.generation < u64::MAX {
                let g = s.generation + 1;
                proof {
                    assert(reusable(slots0[i as int]));
                    assert(first_reusable_from(slots0, i as int) == i as int);
                    assert(spawn_target(slots0) == Entity { index: i, generation: g });
                }
                self.slots.set(
                    i,
                    Slot {
                        generation: g,
                        state: SlotState::Reserved,
                        scope: Option::None,
                        projectile: Option::None,
                    },
                );
                proof {
                    assert(self.slots@ =~= reserve_slot_spec(slots0));
                }
                return Entity { index: i, generation: g };
            }
            proof {
                assert(!reusable(slots0[i as int]));
            }
            i = i + 1;
        }
        proof {
            assert(first_reusable_from(slots0, n as int) == slots0.len() as int);
            assert(spawn_target(slots0) == Entity { index: n, generation: 0 });
        }
        self.slots.push(Slot {
            generation: 0,
            state: SlotState::Reserved,
            scope: Option::None,
            projectile: Option::None,
        });
        proof {
            assert(self.slots@ =~= reserve_slot_spec(slots0));
        }
        Entity { index: n, generation: 0 }
    }

    /// Spawn a plain entity, optionally scoped to a set of modes. The slot is
    /// claimed at once — the returned handle is settled — but the creation
    /// itself is queued in the command buffer and applied, with every other
    /// mutation of this tick, at the cleanup stage; only then does the entity
    /// become live. Entities without a scope are never destroyed by the
    /// lifecycle registry.
    pub fn spawn_entity(&mut self, scope: Option<StateScope>) -> (e: Entity)
        ensures
            e == spawn_target(old(self)@.slots),
            final(self)@ == (WorldView {
                slots: reserve_slot_spec(old(self)@.slots),
                buffer: old(self)@.buffer.push(
                    Command::Spawn { target: e, scope, projectile: Option::None },
                ),
                ..old(self)@
            }),
            reserved_at(final(self)@.slots, e),
            !live_at(final(self)@.slots, e),
    {
        let e = self.reserve();
        self.buffer.push(Command::Spawn { target: e, scope, projectile: Option::None });
        e
    }

    /// Spawn a projectile from an origin position and orientation.
    ///
    /// The projectile's pose is the planar projection of the origin; its
    /// velocity is the planar forward vector rotated by the pose's angle, at
    /// exactly the fixed projectile speed, whatever the orientation; its
    /// scope lets it persist through pause and game over but not at the start
    /// menu; its timer is the fixed duration with nothing yet elapsed. The
    /// slot is claimed at once — the returned handle is settled — but the
    /// creation is queued in the command buffer and applied at the cleanup
    /// stage with every other mutation of this tick. The spawn also queues a
    /// physics-body request and then the fire sound.
    pub fn spawn_projectile(&mut self, pos: Vec3, orient: AxisAngle) -> (e: Entity)
        ensures
            e == spawn_target(old(self)@.slots),
            final(self)@.slots == reserve_slot_spec(old(self)@.slots),
            reserved_at(final(self)@.slots, e),
            !live_at(final(self)@.slots, e),
            final(self)@.buffer == old(self)@.buffer.push(
                Command::Spawn {
                    target: e,
                    scope: Option::Some(projectile_scope()),
                    projectile: Option::Some(new_projectile(pos, orient)),
                },
            ),
            final(self)@.run_state == old(self)@.run_state,
            final(self)@.effects == old(self)@.effects
                + seq![
                EffectRequest::SpawnBody(body_request_for(new_projectile(pos, orient))),
                EffectRequest::PlayFireSound,
            ],
    {
        let pose = project(pos, orient);
        let vel = velocity_from_angle(pose.angle_mdeg);
        let timer = Timer { duration_ms: PROJECTILE_TIMER_MS, elapsed_ms: 0 };
        let proj = Projectile { pose, vel, timer };
        let e = self.reserve();
        self.buffer.push(Command::Spawn {
            target: e,
            scope: Option::Some(make_projectile_scope()),
            projectile: Option::Some(proj),
        });
        self.effects.push(EffectRequest::SpawnBody(BodyRequest {
            pose,
            vel,
            half_width_milli: COLLIDER_HALF_WIDTH_MILLI,
            half_height_milli: COLLIDER_HALF_HEIGHT_MILLI,
            sensor: true,
            depth_milli: PROJECTILE_DEPTH_MILLI,
            scale_milli: PROJECTILE_SCALE_MILLI,
        }));
        self.effects.push(EffectRequest::PlayFireSound);
        e
    }

    /// The projectile timer pass: in Game mode, advance every live
    /// projectile's timer by `dt_ms` and queue a destroy command for each
    /// completed one; in every other mode, do nothing (time is frozen).
    pub fn tick_timers(&mut self, dt_ms: u64)
        ensures
            final(self)@ == tick_timers_spec(old(self)@, dt_ms),
    {
        let ghost w0 = self@;
        let in_game = match self.run_state.current {
            GameState::Game => true,
            _ => false,
        };
        if !in_game {
            return;
        }
        let n = self.slots.len();
        let mut i: usize = 0;
        while i < n
            invariant
                i <= n,
                n == w0.slots.len(),
                w0.run_state.current == GameState::Game,
                self.slots@.len() == n,
                self.run_state == w0.run_state,
                self.effects@ == w0.effects,
                forall|j: int| i <= j < n ==> self.slots@[j] == w0.slots[j],
                forall|j: int| 0 <= j < i ==> self.slots@[j] == tick_slot(w0.slots[j], dt_ms),
                self.buffer@ == w0.buffer + expired_upto(w0.slots, dt_ms, i as int),
            decreases n - i,
        {
            let s = self.slots[i];
            let live = match s.state {
                SlotState::Live => true,
                _ => false,
            };
            if live {
                match s.projectile {
                    Option::Some(p) => {
                        let new_elapsed = if dt_ms > u64::MAX - p.timer.elapsed_ms {
                            u64::MAX
                        } else {
                            p.timer.elapsed_ms + dt_ms
                        };
                        if new_elapsed >= p.timer.duration_ms {
                            self.buffer.push(Command::Destroy(Entity {
                                index: i,
                                generation: s.generation,
                            }));
                        }
                        self.slots.set(
                            i,
                            Slot {
                                generation: s.generation,
                                state: s.state,
                                scope: s.scope,
                                projectile: Option::Some(Projectile {
                                    pose: p.pose,
                                    vel: p.vel,
                                    timer: Timer {
                                        duration_ms: p.timer.duration_ms,
                                        elapsed_ms: new_elapsed,
                                    },
                                }),
                            },
                        );
                    },
                    Option::None => {},
                }
            }
            i = i + 1;
        }
        proof {
            assert(self.slots@ =~= ticked_slots(w0.slots, dt_ms));
            assert(self@ == tick_timers_spec(w0, dt_ms));
        }
    }

    /// The transition system, run once per tick late in the pipeline: commit
    /// the pending transition, if any, and let the lifecycle registry queue a
    /// destroy command for every live entity whose scope excludes the entered
    /// mode. Returns the committed `(exited, entered)` pair, if any.
    pub fn run_state_fsm(&mut self) -> (t: Option<(GameState, GameState)>)
        ensures
            final(self)@ == fsm_spec(old(self)@),
            t == committed_transition(old(self)@.run_state),
    {
        let ghost w0 = self@;
        let t = self.run_state.commit();
        match t {
            Option::None => Option::None,
            Option::Some(pair) => {
                let entered = pair.1;
                let n = self.slots.len();
                let mut i: usize = 0;
                while i < n
                    invariant
                        i <= n,
                        n == w0.slots.len(),
                        self.slots@ == w0.slots,
                        self.effects@ == w0.effects,
                        self.run_state == commit_spec(w0.run_state),
                        committed_transition(w0.run_state) == Option::Some(pair),
                        entered == pair.1,
                        self.buffer@ == w0.buffer + out_of_scope_upto(w0.slots, entered, i as int),
                    decreases n - i,
                {
                    let s = self.slots[i];
                    let live = match s.state {
                        SlotState::Live => true,
                        _ => false,
                    };
                    if live {
                        match s.scope {
                            Option::Some(sc) => {
                                if !sc.contains(entered) {
                                    self.buffer.push(Command::Destroy(Entity {
                                        index: i,
                                        generation: s.generation,
                                    }));
                                }
                            },
                            Option::None => {},
                        }
                    }
                    i = i + 1;
                }
                Option::Some(pair)
            },
        }
    }

    /// The cleanup pass: apply every command queued this tick — spawns and
    /// destroys alike — in order, atomically, then clear the buffer. Each
    /// destroy releases its target at most once; duplicates and stale handles
    /// are no-ops; each spawn makes its reserved slot live with the queued
    /// components. Returns how many slots were actually released.
    pub fn apply_commands(&mut self) -> (released: usize)
        ensures
            final(self)@ == apply_spec(old(self)@),
            released == released_count(old(self)@),
    {
        let ghost w0 = self@;
        let n = self.buffer.len();
        let mut released: usize = 0;
        let mut k: usize = 0;
        while k < n
            invariant
                k <= n,
                n == w0.buffer.len(),
                self.buffer@ == w0.buffer,
                self.effects@ == w0.effects,
                self.run_state == w0.run_state,
                self.slots@ == apply_upto(w0.slots, w0.buffer, k as int),
                released == released_upto(w0.slots, w0.buffer, k as int),
                released <= k,
            decreases n - k,
        {
            match self.buffer[k] {
                Command::Destroy(e) => {
                    if e.index < self.slots.len() {
                        let s = self.slots[e.index];
                        let live = match s.state {
                            SlotState::Live => true,
                            _ => false,
                        };
                        if s.generation == e.generation && live {
                            self.slots.set(
                                e.index,
                                Slot {
                                    generation: e.generation,
                                    state: SlotState::Free,
                                    scope: Option::None,
                                    projectile: Option::None,
                                },
                            );
                            released = released + 1;
                        }
                    }
                },
                Command::Spawn { target, scope, projectile } => {
                    if target.index < self.slots.len() {
                        let s = self.slots[target.index];
                        let reserved = match s.state {
                            SlotState::Reserved => true,
                            _ => false,
                        };
                        if s.generation == target.generation && reserved {
                            self.slots.set(
                                target.index,
                                Slot {
                                    generation: target.generation,
                                    state: SlotState::Live,
                                    scope,
                                    projectile,
                                },
                            );
                        }
                    }
                },
            }
            k = k + 1;
        }
        self.buffer.clear();
        released
    }

    /// Hand the accumulated outward effect requests to the caller, leaving
    /// the queue empty. The caller performs them: creating physics bodies,
    /// playing sounds.
    pub fn take_effects(&mut self) -> (r: Vec<EffectRequest>)
        ensures
            r@ == old(self)@.effects,
            final(self)@ == (WorldView { effects: Seq::<EffectRequest>::empty(), ..old(self)@ }),
    {
        let r = self.effects.split_off(0);
        proof {
            assert(r@ =~= old(self)@.effects);
            assert(self@.effects =~= Seq::<EffectRequest>::empty());
        }
        r
    }
}

} // verus!
