//! The laws the core obeys, stated and proved over the same spec functions
//! the executable contracts use: determinism of a tick, the freeze and expiry
//! behaviour of projectile timers, deferred creation and idempotent
//! destruction through the command buffer, and the lifecycle registry's scope
//! guarantees.

use vstd::prelude::*;

use crate::pose::{AxisAngle, Vec3, PROJECTILE_SPEED};
use crate::pose::project_spec;
use crate::scheduler::{run_systems_trace, run_systems_world, step_world, SystemEntry};
use crate::state::{committed_transition, GameState};
use crate::world::{
    advanced, apply_one, apply_spec, apply_upto, drops_out, expired_upto, expires_now, fsm_spec,
    live_at, new_projectile, out_of_scope_upto, released_upto, reserved_at, spawns_into,
    tick_slot, tick_timers_spec, timer_finished, Command, Entity, Projectile, Slot, SlotState,
    StateScope, WorldView,
};

verus! {

// ---------------------------------------------------------------------------
// Determinism.
// ---------------------------------------------------------------------------

/// A tick is deterministic: the systems a tick runs, the order it runs them
/// in, and the world it leaves behind are functions of the initial world, the
/// registration sequence and the time step alone, so repeated runs from equal
/// starting points are identical.
pub proof fn lemma_tick_deterministic(
    w1: WorldView,
    w2: WorldView,
    entries1: Seq<SystemEntry>,
    entries2: Seq<SystemEntry>,
    dt1: u64,
    dt2: u64,
)
    requires
        w1 == w2,
        entries1 == entries2,
        dt1 == dt2,
    ensures
        run_systems_trace(w1, entries1, dt1) == run_systems_trace(w2, entries2, dt2),
        run_systems_world(w1, entries1, dt1) == run_systems_world(w2, entries2, dt2),
{
}

/// The order a tick visits stages in — declaration order — is a topological
/// order of the declared edges: every stage of a well-formed scheduler comes
/// strictly after its declared predecessor. Combined with
/// [`lemma_tick_deterministic`], the pipeline's two branches always run as
/// declared, ending at the cleanup stage.
pub proof fn lemma_declaration_order_topological(stages: Seq<crate::scheduler::Stage>, i: int)
    requires
        crate::scheduler::stages_well_formed(stages),
        0 <= i < stages.len(),
        stages[i].after is Some,
    ensures
        stages[i].after->Some_0 < i,
{
}

// ---------------------------------------------------------------------------
// Projectile velocity.
// ---------------------------------------------------------------------------

/// Every spawned projectile moves at exactly the fixed projectile speed,
/// whatever the spawn orientation; its direction is the planar forward vector
/// rotated by the spawn pose's angle, and its timer starts with the full
/// duration ahead of it.
pub proof fn lemma_projectile_velocity(pos: Vec3, orient: AxisAngle)
    ensures
        new_projectile(pos, orient).vel.speed == PROJECTILE_SPEED,
        new_projectile(pos, orient).vel.angle_mdeg == project_spec(pos, orient).angle_mdeg,
        new_projectile(pos, orient).pose == project_spec(pos, orient),
        !timer_finished(new_projectile(pos, orient).timer),
{
}

// ---------------------------------------------------------------------------
// The freeze law: outside the Game mode, time does not pass.
// ---------------------------------------------------------------------------

/// The world after a whole sequence of timer passes, one per element of
/// `dts`, in order.
pub open spec fn tick_timers_many(w: WorldView, dts: Seq<u64>) -> WorldView
    decreases dts.len(),
{
    if dts.len() == 0 {
        w
    } else {
        tick_timers_many(tick_timers_spec(w, dts.first()), dts.drop_first())
    }
}

/// Outside the Game mode the timer pass changes nothing at all: no timer
/// advances and no destroy command is queued, however long the pause lasts
/// (any sequence of passes leaves the world exactly as it was).
pub proof fn lemma_timers_frozen(w: WorldView, dts: Seq<u64>)
    requires
        w.run_state.current != GameState::Game,
    ensures
        tick_timers_many(w, dts) == w,
    decreases dts.len(),
{
    if dts.len() > 0 {
        assert(tick_timers_spec(w, dts.first()) == w);
        lemma_timers_frozen(w, dts.drop_first());
    }
}

/// In the Game mode a live projectile's timer resumes from its prior elapsed
/// value — it advances by exactly the pass's time step and is never reset —
/// and the projectile itself stays live through the pass (destruction is
/// deferred to cleanup).
pub proof fn lemma_timer_resumes(w: WorldView, dt: u64, e: Entity, p: Projectile)
    requires
        w.run_state.current == GameState::Game,
        live_at(w.slots, e),
        w.slots[e.index as int].projectile == Option::Some(p),
    ensures
        live_at(tick_timers_spec(w, dt).slots, e),
        tick_timers_spec(w, dt).slots[e.index as int].projectile == Option::Some(
            Projectile { pose: p.pose, vel: p.vel, timer: advanced(p.timer, dt) },
        ),
{
    assert(tick_timers_spec(w, dt).slots[e.index as int] == tick_slot(
        w.slots[e.index as int],
        dt,
    ));
}

/// A whole tick of the core's built-in systems — the timer pass, the
/// transition system, the cleanup — changes nothing at all while the mode is
/// not Game, no transition is pending, and no command was queued: a paused
/// world sits perfectly still, however many such ticks pass.
pub proof fn lemma_paused_tick_changes_nothing(
    w: WorldView,
    timers: SystemEntry,
    fsm: SystemEntry,
    cleanup: SystemEntry,
    dt: u64,
)
    requires
        w.run_state.current != GameState::Game,
        w.run_state.requested is None,
        w.buffer == Seq::<Command>::empty(),
        timers.kind is TickTimers,
        fsm.kind is RunStateFsm,
        cleanup.kind is ApplyCommands,
    ensures
        run_systems_world(w, seq![timers, fsm, cleanup], dt) == w,
{
    let entries = seq![timers, fsm, cleanup];
    assert(entries.drop_last() =~= seq![timers, fsm]);
    assert(seq![timers, fsm].drop_last() =~= seq![timers]);
    assert(seq![timers].drop_last() =~= Seq::<SystemEntry>::empty());
    assert(step_world(w, timers, dt) == w);
    assert(step_world(w, fsm, dt) == w);
    assert(apply_spec(w) == w) by {
        assert(apply_upto(w.slots, w.buffer, 0) == w.slots);
    }
    assert(step_world(w, cleanup, dt) == w);
    assert(run_systems_world(w, seq![timers], dt) == step_world(
        run_systems_world(w, Seq::<SystemEntry>::empty(), dt),
        timers,
        dt,
    ));
    assert(run_systems_world(w, seq![timers, fsm], dt) == step_world(
        run_systems_world(w, seq![timers], dt),
        fsm,
        dt,
    ));
    assert(run_systems_world(w, entries, dt) == step_world(
        run_systems_world(w, seq![timers, fsm], dt),
        cleanup,
        dt,
    ));
}

// ---------------------------------------------------------------------------
// Membership in the queues the passes build.
// ---------------------------------------------------------------------------

/// Membership in a concatenation is membership in either part.
proof fn lemma_contains_concat(a: Seq<Command>, b: Seq<Command>, c: Command)
    ensures
        (a + b).contains(c) <==> a.contains(c) || b.contains(c),
{
    if a.contains(c) {
        let k = choose|k: int| 0 <= k < a.len() && a[k] == c;
        assert((a + b)[k] == c);
    }
    if b.contains(c) {
        let k = choose|k: int| 0 <= k < b.len() && b[k] == c;
        assert((a + b)[k + a.len()] == c);
    }
    if (a + b).contains(c) {
        let k = choose|k: int| 0 <= k < (a + b).len() && (a + b)[k] == c;
        if k < a.len() {
            assert(a[k] == c);
        } else {
            assert(b[k - a.len()] == c);
        }
    }
}

/// What the timer pass queues, exactly: a destroy for a handle is in the
/// queue if and only if it is the current handle of a slot, below the scanned
/// bound, whose live projectile's timer completes within the pass.
pub proof fn lemma_expired_upto_char(slots: Seq<Slot>, dt: u64, n: int, e: Entity)
    requires
        0 <= n <= slots.len(),
        slots.len() <= usize::MAX,
    ensures
        expired_upto(slots, dt, n).contains(Command::Destroy(e)) <==> {
            &&& e.index < n
            &&& expires_now(slots[e.index as int], dt)
            &&& e.generation == slots[e.index as int].generation
        },
    decreases n,
{
    if n > 0 {
        lemma_expired_upto_char(slots, dt, n - 1, e);
        let prev = expired_upto(slots, dt, n - 1);
        let last = Command::Destroy(
            Entity { index: (n - 1) as usize, generation: slots[n - 1].generation },
        );
        let me = Command::Destroy(e);
        if expires_now(slots[n - 1], dt) {
            lemma_contains_concat(prev, seq![last], me);
            assert(seq![last].contains(me) <==> me == last) by {
                if seq![last].contains(me) {
                    let k = choose|k: int| 0 <= k < seq![last].len() && seq![last][k] == me;
                    assert(k == 0);
                }
                if me == last {
                    assert(seq![last][0] == me);
                }
            }
        } else {
            lemma_contains_concat(prev, Seq::<Command>::empty(), me);
            assert(!Seq::<Command>::empty().contains(me));
        }
    }
}

/// Every command the timer pass queues is a destroy: the pass creates
/// nothing.
pub proof fn lemma_expired_upto_destroys(slots: Seq<Slot>, dt: u64, n: int)
    ensures
        forall|m: int|
            0 <= m < expired_upto(slots, dt, n).len() ==> expired_upto(slots, dt, n)[m]
                is Destroy,
    decreases n,
{
    if n > 0 {
        lemma_expired_upto_destroys(slots, dt, n - 1);
        let prev = expired_upto(slots, dt, n - 1);
        let q = expired_upto(slots, dt, n);
        assert forall|m: int| 0 <= m < q.len() implies q[m] is Destroy by {
            if m < prev.len() {
                assert(q[m] == prev[m]);
            }
        }
    }
}

/// What the lifecycle registry queues, exactly: a destroy for a handle is in
/// the queue if and only if it is the current handle of a slot, below the
/// scanned bound, whose live occupant's scope excludes the entered mode. In
/// particular an entity whose scope includes the entered mode, or that
/// carries no scope at all, is left untouched by this pass.
pub proof fn lemma_out_of_scope_upto_char(slots: Seq<Slot>, entered: GameState, n: int, e: Entity)
    requires
        0 <= n <= slots.len(),
        slots.len() <= usize::MAX,
    ensures
        out_of_scope_upto(slots, entered, n).contains(Command::Destroy(e)) <==> {
            &&& e.index < n
            &&& drops_out(slots[e.index as int], entered)
            &&& e.generation == slots[e.index as int].generation
        },
    decreases n,
{
    if n > 0 {
        lemma_out_of_scope_upto_char(slots, entered, n - 1, e);
        let prev = out_of_scope_upto(slots, entered, n - 1);
        let last = Command::Destroy(
            Entity { index: (n - 1) as usize, generation: slots[n - 1].generation },
        );
        let me = Command::Destroy(e);
        if drops_out(slots[n - 1], entered) {
            lemma_contains_concat(prev, seq![last], me);
            assert(seq![last].contains(me) <==> me == last) by {
                if seq![last].contains(me) {
                    let k = choose|k: int| 0 <= k < seq![last].len() && seq![last][k] == me;
                    assert(k == 0);
                }
                if me == last {
                    assert(seq![last][0] == me);
                }
            }
        } else {
            lemma_contains_concat(prev, Seq::<Command>::empty(), me);
            assert(!Seq::<Command>::empty().contains(me));
        }
    }
}

/// Every command the lifecycle registry queues is a destroy: the registry
/// creates nothing.
pub proof fn lemma_out_of_scope_upto_destroys(slots: Seq<Slot>, entered: GameState, n: int)
    ensures
        forall|m: int|
            0 <= m < out_of_scope_upto(slots, entered, n).len() ==> out_of_scope_upto(
                slots,
                entered,
                n,
            )[m] is Destroy,
    decreases n,
{
    if n > 0 {
        lemma_out_of_scope_upto_destroys(slots, entered, n - 1);
        let prev = out_of_scope_upto(slots, entered, n - 1);
        let q = out_of_scope_upto(slots, entered, n);
        assert forall|m: int| 0 <= m < q.len() implies q[m] is Destroy by {
            if m < prev.len() {
                assert(q[m] == prev[m]);
            }
        }
    }
}

// ---------------------------------------------------------------------------
// What applying the command buffer does and does not touch.
// ---------------------------------------------------------------------------

/// Right after a destroy for a handle is applied, the handle is dead,
/// whatever the slot held before.
pub proof fn lemma_destroy_dead(slots: Seq<Slot>, e: Entity)
    ensures
        !live_at(apply_one(slots, Command::Destroy(e)), e),
{
}

/// A live entity keeps its generation through the application of commands
/// none of which is a creation into its slot: the slot only ever moves
/// between live and free, under the same generation.
proof fn lemma_apply_upto_pinned(slots: Seq<Slot>, buf: Seq<Command>, n: int, e: Entity)
    requires
        live_at(slots, e),
        forall|k: int| 0 <= k < n ==> !spawns_into(buf[k], e.index),
    ensures
        e.index < apply_upto(slots, buf, n).len(),
        apply_upto(slots, buf, n)[e.index as int].generation == e.generation,
        apply_upto(slots, buf, n)[e.index as int].state is Live || apply_upto(slots, buf, n)[
            e.index as int
        ].state is Free,
    decreases n,
{
    if n > 0 {
        lemma_apply_upto_pinned(slots, buf, n - 1, e);
    }
}

/// A handle with a destroy somewhere among the first `n` commands, and no
/// creation into its slot among them, is dead — its slot free — once they are
/// applied: destruction is final within the pass.
pub proof fn lemma_apply_upto_kills(slots: Seq<Slot>, buf: Seq<Command>, n: int, e: Entity)
    requires
        live_at(slots, e),
        exists|k: int| 0 <= k < n && buf[k] == Command::Destroy(e),
        forall|k: int| 0 <= k < n ==> !spawns_into(buf[k], e.index),
    ensures
        e.index < apply_upto(slots, buf, n).len(),
        !live_at(apply_upto(slots, buf, n), e),
        apply_upto(slots, buf, n)[e.index as int].state is Free,
        apply_upto(slots, buf, n)[e.index as int].generation == e.generation,
    decreases n,
{
    if n > 0 {
        let cur = apply_upto(slots, buf, n - 1);
        if exists|k: int| 0 <= k < n - 1 && buf[k] == Command::Destroy(e) {
            lemma_apply_upto_kills(slots, buf, n - 1, e);
        } else {
            assert(buf[n - 1] == Command::Destroy(e));
            lemma_apply_upto_pinned(slots, buf, n - 1, e);
        }
    }
}

/// A live entity with no destroy for its handle and no creation into its slot
/// among the first `n` commands survives their application, its slot
/// untouched: the cleanup pass destroys exactly what was queued.
pub proof fn lemma_apply_upto_spares(slots: Seq<Slot>, buf: Seq<Command>, n: int, e: Entity)
    requires
        live_at(slots, e),
        forall|k: int| 0 <= k < n ==> buf[k] != Command::Destroy(e),
        forall|k: int| 0 <= k < n ==> !spawns_into(buf[k], e.index),
    ensures
        live_at(apply_upto(slots, buf, n), e),
        apply_upto(slots, buf, n)[e.index as int] == slots[e.index as int],
    decreases n,
{
    if n > 0 {
        lemma_apply_upto_spares(slots, buf, n - 1, e);
        let cur = apply_upto(slots, buf, n - 1);
        match buf[n - 1] {
            Command::Destroy(e2) => {
                if live_at(cur, e2) && e2.index == e.index {
                    assert(e2.generation == cur[e2.index as int].generation);
                    assert(cur[e.index as int].generation == e.generation);
                    assert(e2 == e);
                    assert(false);
                }
            },
            Command::Spawn { target, scope, projectile } => {},
        }
    }
}

/// A reserved slot is untouched by commands that neither create into it nor
/// precede its own creation: destroys only act on live slots.
proof fn lemma_apply_upto_keeps_reserved(slots: Seq<Slot>, buf: Seq<Command>, n: int, e: Entity)
    requires
        reserved_at(slots, e),
        forall|k: int| 0 <= k < n ==> !spawns_into(buf[k], e.index),
    ensures
        reserved_at(apply_upto(slots, buf, n), e),
        apply_upto(slots, buf, n)[e.index as int] == slots[e.index as int],
    decreases n,
{
    if n > 0 {
        lemma_apply_upto_keeps_reserved(slots, buf, n - 1, e);
    }
}

/// Deferred creation: a spawn queued at position `k` — with no destroy for
/// the handle and no other creation into its slot among the first `n`
/// commands — is applied with them: from then on the entity is live, holding
/// exactly the queued components. Together with the chronological order of
/// the buffer this is the atomic application of all of a tick's spawns and
/// destroys at its cleanup stage.
pub proof fn lemma_spawn_applied_at_cleanup(
    slots: Seq<Slot>,
    buf: Seq<Command>,
    n: int,
    k: int,
    e: Entity,
    scope: Option<StateScope>,
    proj: Option<Projectile>,
)
    requires
        reserved_at(slots, e),
        0 <= k < n,
        buf[k] == (Command::Spawn { target: e, scope, projectile: proj }),
        forall|m: int| 0 <= m < n && m != k ==> !spawns_into(buf[m], e.index),
        forall|m: int| 0 <= m < n ==> buf[m] != Command::Destroy(e),
    ensures
        live_at(apply_upto(slots, buf, n), e),
        apply_upto(slots, buf, n)[e.index as int] == (Slot {
            generation: e.generation,
            state: SlotState::Live,
            scope,
            projectile: proj,
        }),
    decreases n,
{
    let cur = apply_upto(slots, buf, n - 1);
    if k == n - 1 {
        lemma_apply_upto_keeps_reserved(slots, buf, n - 1, e);
        assert(reserved_at(cur, e));
    } else {
        lemma_spawn_applied_at_cleanup(slots, buf, n - 1, k, e, scope, proj);
        match buf[n - 1] {
            Command::Destroy(e2) => {
                if live_at(cur, e2) && e2.index == e.index {
                    assert(e2.generation == cur[e2.index as int].generation);
                    assert(cur[e.index as int].generation == e.generation);
                    assert(e2 == e);
                    assert(false);
                }
            },
            Command::Spawn { target, scope: s2, projectile: p2 } => {},
        }
    }
}

/// Two command queues that agree up to `n` are applied identically up to `n`,
/// releasing the same slots and the same number of them.
pub proof fn lemma_apply_upto_prefix(slots: Seq<Slot>, b1: Seq<Command>, b2: Seq<Command>, n: int)
    requires
        forall|k: int| 0 <= k < n ==> b1[k] == b2[k],
    ensures
        apply_upto(slots, b1, n) == apply_upto(slots, b2, n),
        released_upto(slots, b1, n) == released_upto(slots, b2, n),
    decreases n,
{
    if n > 0 {
        lemma_apply_upto_prefix(slots, b1, b2, n - 1);
    }
}

// ---------------------------------------------------------------------------
// Idempotence of destruction.
// ---------------------------------------------------------------------------

/// Destroy commands are idempotent: queueing the same handle twice leaves
/// exactly the slots that queueing it once leaves, and releases exactly as
/// many of them — the duplicate releases nothing. The two requests need not
/// be adjacent: the first to be applied does the release and every later one
/// finds the handle dead.
pub proof fn lemma_duplicate_destroy_collapses(slots: Seq<Slot>, buf: Seq<Command>, e: Entity)
    ensures
        ({
            let once = buf.push(Command::Destroy(e));
            let twice = buf.push(Command::Destroy(e)).push(Command::Destroy(e));
            &&& apply_upto(slots, twice, twice.len() as int) == apply_upto(
                slots,
                once,
                once.len() as int,
            )
            &&& released_upto(slots, twice, twice.len() as int) == released_upto(
                slots,
                once,
                once.len() as int,
            )
        }),
{
    let once = buf.push(Command::Destroy(e));
    let twice = once.push(Command::Destroy(e));
    let n = buf.len() as int;
    lemma_apply_upto_prefix(slots, once, twice, n + 1);
    let after_once = apply_upto(slots, twice, n + 1);
    assert(after_once == apply_one(apply_upto(slots, twice, n), twice[n]));
    assert(twice[n] == Command::Destroy(e));
    lemma_destroy_dead(apply_upto(slots, twice, n), e);
    assert(!live_at(after_once, e));
    assert(twice[n + 1] == Command::Destroy(e));
    assert(apply_upto(slots, twice, n + 2) == apply_one(after_once, Command::Destroy(e)));
    assert(apply_one(after_once, Command::Destroy(e)) == after_once);
}

// ---------------------------------------------------------------------------
// Expiry: a completed timer destroys its projectile at the next cleanup.
// ---------------------------------------------------------------------------

/// A live projectile whose timer completes within a Game-mode timer pass is
/// destroyed by the cleanup pass of the same tick: dead no later than the
/// first command-buffer application after its timer ran out. (No creation in
/// the buffer can target a live entity's slot, which the hypothesis records.)
pub proof fn lemma_expired_projectile_destroyed(w: WorldView, dt: u64, e: Entity, p: Projectile)
    requires
        w.slots.len() <= usize::MAX,
        w.run_state.current == GameState::Game,
        live_at(w.slots, e),
        w.slots[e.index as int].projectile == Option::Some(p),
        timer_finished(advanced(p.timer, dt)),
        forall|k: int| 0 <= k < w.buffer.len() ==> !spawns_into(w.buffer[k], e.index),
    ensures
        !live_at(apply_spec(tick_timers_spec(w, dt)).slots, e),
{
    let w1 = tick_timers_spec(w, dt);
    let expired = expired_upto(w.slots, dt, w.slots.len() as int);
    lemma_expired_upto_char(w.slots, dt, w.slots.len() as int, e);
    assert(expired.contains(Command::Destroy(e)));
    lemma_contains_concat(w.buffer, expired, Command::Destroy(e));
    assert(w1.buffer.contains(Command::Destroy(e)));
    lemma_expired_upto_destroys(w.slots, dt, w.slots.len() as int);
    assert forall|k: int| 0 <= k < w1.buffer.len() implies !spawns_into(w1.buffer[k], e.index) by {
        if k >= w.buffer.len() {
            assert(expired[k - w.buffer.len()] == w1.buffer[k]);
        }
    }
    lemma_apply_upto_kills(w1.slots, w1.buffer, w1.buffer.len() as int, e);
}

/// A live projectile whose timer does not complete within a Game-mode timer
/// pass — its handle in no queued destroy, its slot in no queued creation —
/// is still live after the same tick's cleanup, its timer advanced by exactly
/// the pass's time step.
pub proof fn lemma_running_projectile_survives(w: WorldView, dt: u64, e: Entity, p: Projectile)
    requires
        w.slots.len() <= usize::MAX,
        w.run_state.current == GameState::Game,
        live_at(w.slots, e),
        w.slots[e.index as int].projectile == Option::Some(p),
        !timer_finished(advanced(p.timer, dt)),
        forall|k: int| 0 <= k < w.buffer.len() ==> w.buffer[k] != Command::Destroy(e),
        forall|k: int| 0 <= k < w.buffer.len() ==> !spawns_into(w.buffer[k], e.index),
    ensures
        live_at(apply_spec(tick_timers_spec(w, dt)).slots, e),
        apply_spec(tick_timers_spec(w, dt)).slots[e.index as int].projectile == Option::Some(
            Projectile { pose: p.pose, vel: p.vel, timer: advanced(p.timer, dt) },
        ),
{
    let w1 = tick_timers_spec(w, dt);
    lemma_timer_resumes(w, dt, e, p);
    let expired = expired_upto(w.slots, dt, w.slots.len() as int);
    lemma_expired_upto_char(w.slots, dt, w.slots.len() as int, e);
    assert(!expired.contains(Command::Destroy(e)));
    lemma_expired_upto_destroys(w.slots, dt, w.slots.len() as int);
    assert forall|k: int| 0 <= k < w1.buffer.len() implies w1.buffer[k] != Command::Destroy(e) by {
        if k >= w.buffer.len() {
            assert(expired[k - w.buffer.len()] == w1.buffer[k]);
        }
    }
    assert forall|k: int| 0 <= k < w1.buffer.len() implies !spawns_into(w1.buffer[k], e.index) by {
        if k >= w.buffer.len() {
            assert(expired[k - w.buffer.len()] == w1.buffer[k]);
        }
    }
    lemma_apply_upto_spares(w1.slots, w1.buffer, w1.buffer.len() as int, e);
}

/// A whole Game-mode tick of the core's built-in systems — the timer pass,
/// the transition system, the cleanup — destroys a projectile whose timer
/// completes within it: the projectile is dead by the end of the very tick
/// that exhausts its five seconds of game time, even with no transition
/// pending in between.
pub proof fn lemma_game_tick_destroys_expired(
    w: WorldView,
    timers: SystemEntry,
    fsm: SystemEntry,
    cleanup: SystemEntry,
    dt: u64,
    e: Entity,
    p: Projectile,
)
    requires
        w.slots.len() <= usize::MAX,
        w.run_state.current == GameState::Game,
        w.run_state.requested is None,
        live_at(w.slots, e),
        w.slots[e.index as int].projectile == Option::Some(p),
        timer_finished(advanced(p.timer, dt)),
        forall|k: int| 0 <= k < w.buffer.len() ==> !spawns_into(w.buffer[k], e.index),
        timers.kind is TickTimers,
        timers.only_in is None,
        fsm.kind is RunStateFsm,
        fsm.only_in is None,
        cleanup.kind is ApplyCommands,
        cleanup.only_in is None,
    ensures
        !live_at(run_systems_world(w, seq![timers, fsm, cleanup], dt).slots, e),
{
    let entries = seq![timers, fsm, cleanup];
    assert(entries.drop_last() =~= seq![timers, fsm]);
    assert(seq![timers, fsm].drop_last() =~= seq![timers]);
    assert(seq![timers].drop_last() =~= Seq::<SystemEntry>::empty());
    let w1 = tick_timers_spec(w, dt);
    assert(run_systems_world(w, seq![timers], dt) == step_world(
        run_systems_world(w, Seq::<SystemEntry>::empty(), dt),
        timers,
        dt,
    ));
    assert(run_systems_world(w, seq![timers], dt) == w1);
    // The timer pass leaves the run state alone, so with no transition
    // pending the transition system changes nothing.
    assert(fsm_spec(w1) == w1);
    assert(run_systems_world(w, seq![timers, fsm], dt) == step_world(
        run_systems_world(w, seq![timers], dt),
        fsm,
        dt,
    ));
    assert(run_systems_world(w, entries, dt) == step_world(
        run_systems_world(w, seq![timers, fsm], dt),
        cleanup,
        dt,
    ));
    assert(run_systems_world(w, entries, dt) == apply_spec(w1));
    lemma_expired_projectile_destroyed(w, dt, e, p);
}

// ---------------------------------------------------------------------------
// The lifecycle registry's guarantees around a committed transition.
// ---------------------------------------------------------------------------

/// A live entity whose scope excludes the entered mode is destroyed by the
/// first cleanup pass after the transition commits.
pub proof fn lemma_out_of_scope_destroyed(w: WorldView, e: Entity, entered: GameState)
    requires
        w.slots.len() <= usize::MAX,
        committed_transition(w.run_state) matches Option::Some(t) && t.1 == entered,
        live_at(w.slots, e),
        drops_out(w.slots[e.index as int], entered),
        forall|k: int| 0 <= k < w.buffer.len() ==> !spawns_into(w.buffer[k], e.index),
    ensures
        !live_at(apply_spec(fsm_spec(w)).slots, e),
{
    let w1 = fsm_spec(w);
    let queued = out_of_scope_upto(w.slots, entered, w.slots.len() as int);
    lemma_out_of_scope_upto_char(w.slots, entered, w.slots.len() as int, e);
    assert(queued.contains(Command::Destroy(e)));
    lemma_contains_concat(w.buffer, queued, Command::Destroy(e));
    assert(w1.buffer.contains(Command::Destroy(e)));
    lemma_out_of_scope_upto_destroys(w.slots, entered, w.slots.len() as int);
    assert forall|k: int| 0 <= k < w1.buffer.len() implies !spawns_into(w1.buffer[k], e.index) by {
        if k >= w.buffer.len() {
            assert(queued[k - w.buffer.len()] == w1.buffer[k]);
        }
    }
    lemma_apply_upto_kills(w1.slots, w1.buffer, w1.buffer.len() as int, e);
}

/// A live entity whose scope includes the entered mode — or that carries no
/// scope at all — is left untouched by the registry's pass, and if no queued
/// command names its handle or slot it survives the same tick's cleanup
/// unchanged.
pub proof fn lemma_in_scope_survives(w: WorldView, e: Entity, entered: GameState)
    requires
        w.slots.len() <= usize::MAX,
        committed_transition(w.run_state) matches Option::Some(t) && t.1 == entered,
        live_at(w.slots, e),
        !drops_out(w.slots[e.index as int], entered),
        forall|k: int| 0 <= k < w.buffer.len() ==> w.buffer[k] != Command::Destroy(e),
        forall|k: int| 0 <= k < w.buffer.len() ==> !spawns_into(w.buffer[k], e.index),
    ensures
        live_at(apply_spec(fsm_spec(w)).slots, e),
        apply_spec(fsm_spec(w)).slots[e.index as int] == w.slots[e.index as int],
{
    let w1 = fsm_spec(w);
    let queued = out_of_scope_upto(w.slots, entered, w.slots.len() as int);
    lemma_out_of_scope_upto_char(w.slots, entered, w.slots.len() as int, e);
    assert(!queued.contains(Command::Destroy(e)));
    lemma_out_of_scope_upto_destroys(w.slots, entered, w.slots.len() as int);
    assert forall|k: int| 0 <= k < w1.buffer.len() implies w1.buffer[k] != Command::Destroy(e) by {
        if k >= w.buffer.len() {
            assert(queued[k - w.buffer.len()] == w1.buffer[k]);
        }
    }
    assert forall|k: int| 0 <= k < w1.buffer.len() implies !spawns_into(w1.buffer[k], e.index) by {
        if k >= w.buffer.len() {
            assert(queued[k - w.buffer.len()] == w1.buffer[k]);
        }
    }
    lemma_apply_upto_spares(w1.slots, w1.buffer, w1.buffer.len() as int, e);
}

} // verus!
