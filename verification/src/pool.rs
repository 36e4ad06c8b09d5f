//! The particle pool and the two systems that mutate it: the spawner, which
//! turns elapsed time into newly activated particles through a fractional
//! accumulator, and the updater, which advances active particles one step of
//! position-Verlet integration.

use vstd::prelude::*;
use crate::fx::{
    ACC_CEIL, CAP_MAX, COORD_LIMIT, DT_MAX, FP, PROD_LIMIT, RATE_MAX, clamp_coord, fpmul,
    lemma_fpmul_bound, lemma_fpmul_nonneg, mul_fp, sat_coord, whole_units,
};
use crate::math::Vec3Fx;
use vstd::arithmetic::div_mod::lemma_fundamental_div_mod;
use vstd::arithmetic::div_mod::lemma_mod_bound;
use vstd::arithmetic::div_mod::lemma_div_pos_is_pos;
use vstd::arithmetic::mul::lemma_mul_inequality;

verus! {

/// Downward acceleration written into every newly spawned particle:
/// -9.81 units per second squared in fixed point, `-(981 * FP) / 100` rounded
/// toward zero.
pub const GRAVITY_Y: i64 = -10286530;

/// The motion state of one particle slot: position, previous position and
/// acceleration, all fixed-point vectors.
#[derive(Clone, Copy, Debug, PartialEq, Eq, Structural)]
pub struct MotionState {
    pub position: Vec3Fx,
    pub prev_position: Vec3Fx,
    pub acceleration: Vec3Fx,
}

/// The zero motion state an inert slot holds.
pub open spec fn zero_motion() -> MotionState {
    MotionState {
        position: Vec3Fx { x: 0, y: 0, z: 0 },
        prev_position: Vec3Fx { x: 0, y: 0, z: 0 },
        acceleration: Vec3Fx { x: 0, y: 0, z: 0 },
    }
}

/// The gravity bias given to a spawned particle.
pub open spec fn gravity() -> Vec3Fx {
    Vec3Fx { x: 0, y: GRAVITY_Y, z: 0 }
}

impl MotionState {
    pub open spec fn wf(self) -> bool {
        &&& self.position.wf()
        &&& self.prev_position.wf()
        &&& self.acceleration.wf()
    }

    /// Derive the previous position from an initial velocity: one time step
    /// taken backward, so that the first integration step reproduces the
    /// intended velocity.
    pub fn init_velocity(&mut self, velocity: Vec3Fx, dt: i64)
        requires
            old(self).position.wf(),
            velocity.wf(),
            0 <= dt <= DT_MAX,
        ensures
            *final(self) == (MotionState {
                prev_position: backstep_vec(old(self).position, velocity, dt as int),
                ..*old(self)
            }),
    {
        self.prev_position = Vec3Fx {
            x: backstep_coord(self.position.x, velocity.x, dt),
            y: backstep_coord(self.position.y, velocity.y, dt),
            z: backstep_coord(self.position.z, velocity.z, dt),
        };
    }
}

impl Default for MotionState {
    /// An inert slot: everything zero.
    fn default() -> (d: Self)
        ensures
            d == zero_motion(),
    {
        MotionState {
            position: Vec3Fx { x: 0, y: 0, z: 0 },
            prev_position: Vec3Fx { x: 0, y: 0, z: 0 },
            acceleration: Vec3Fx { x: 0, y: 0, z: 0 },
        }
    }
}

/// One coordinate of the backward step: `p - velocity * dt`, saturated at the
/// world bounds.
pub open spec fn backstep(p: int, v: int, dt: int) -> int {
    clamp_coord(p - fpmul(v, dt))
}

/// The backward step applied to a whole vector.
pub open spec fn backstep_vec(p: Vec3Fx, v: Vec3Fx, dt: int) -> Vec3Fx {
    Vec3Fx {
        x: backstep(p.x as int, v.x as int, dt) as i64,
        y: backstep(p.y as int, v.y as int, dt) as i64,
        z: backstep(p.z as int, v.z as int, dt) as i64,
    }
}

fn backstep_coord(p: i64, v: i64, dt: i64) -> (r: i64)
    requires
        -COORD_LIMIT <= p <= COORD_LIMIT,
        -COORD_LIMIT <= v <= COORD_LIMIT,
        0 <= dt <= DT_MAX,
    ensures
        r == backstep(p as int, v as int, dt as int),
        -COORD_LIMIT <= r <= COORD_LIMIT,
{
    proof {
        assert(-PROD_LIMIT <= (v as int) * (dt as int) <= PROD_LIMIT) by (nonlinear_arith)
            requires
                -COORD_LIMIT <= v <= COORD_LIMIT,
                0 <= dt <= DT_MAX,
        ;
    }
    let vd = mul_fp(v, dt);
    sat_coord(p - vd)
}

/// One coordinate of a position-Verlet step:
/// `2 * p - prev + a * dt * dt`, saturated at the world bounds.
pub open spec fn verlet(p: int, prev: int, a: int, dt: int) -> int {
    clamp_coord(2 * p - prev + fpmul(fpmul(a, dt), dt))
}

/// A full Verlet step of one motion state: the position advances, the
/// previous position becomes the pre-update position, the acceleration is
/// kept.
pub open spec fn verlet_motion(m: MotionState, dt: int) -> MotionState {
    MotionState {
        position: Vec3Fx {
            x: verlet(m.position.x as int, m.prev_position.x as int, m.acceleration.x as int, dt)
                as i64,
            y: verlet(m.position.y as int, m.prev_position.y as int, m.acceleration.y as int, dt)
                as i64,
            z: verlet(m.position.z as int, m.prev_position.z as int, m.acceleration.z as int, dt)
                as i64,
        },
        prev_position: m.position,
        acceleration: m.acceleration,
    }
}

fn verlet_coord(p: i64, prev: i64, a: i64, dt: i64) -> (r: i64)
    requires
        -COORD_LIMIT <= p <= COORD_LIMIT,
        -COORD_LIMIT <= prev <= COORD_LIMIT,
        -COORD_LIMIT <= a <= COORD_LIMIT,
        0 <= dt <= DT_MAX,
    ensures
        r == verlet(p as int, prev as int, a as int, dt as int),
        -COORD_LIMIT <= r <= COORD_LIMIT,
{
    proof {
        assert(-34359738368 * (FP as int) <= (a as int) * (dt as int) <= 34359738368 * (
        FP as int)) by (nonlinear_arith)
            requires
                -COORD_LIMIT <= a <= COORD_LIMIT,
                0 <= dt <= DT_MAX,
        ;
        lemma_fpmul_bound(a as int, dt as int, 34359738368);
    }
    let adt = mul_fp(a, dt);
    proof {
        assert(-PROD_LIMIT <= (adt as int) * (dt as int) <= PROD_LIMIT) by (nonlinear_arith)
            requires
                -34359738368 <= adt <= 34359738368,
                0 <= dt <= DT_MAX,
        ;
    }
    let adt2 = mul_fp(adt, dt);
    sat_coord(2 * p - prev + adt2)
}

/// The fixed-capacity particle pool of one emitter: `buffer` never changes
/// its length, slots `[0, used)` are active, slots `[used, len)` are inert.
/// `used` only ever grows; capacity acts as a hard ceiling on emission.
#[derive(Clone, Debug)]
pub struct UpdateState {
    pub buffer: Vec<MotionState>,
    pub used: usize,
}

impl UpdateState {
    pub open spec fn wf(self) -> bool {
        &&& self.used <= self.buffer@.len()
        &&& self.buffer@.len() <= CAP_MAX
        &&& forall|i: int| 0 <= i < self.buffer@.len() ==> (#[trigger] self.buffer@[i]).wf()
    }

    /// A pool of `capacity` inert slots.
    pub fn new(capacity: usize) -> (s: Self)
        requires
            capacity <= CAP_MAX,
        ensures
            s.wf(),
            s.used == 0,
            s.buffer@.len() == capacity,
            forall|i: int| 0 <= i < capacity ==> s.buffer@[i] == zero_motion(),
    {
        let mut buffer: Vec<MotionState> = Vec::new();
        let mut i: usize = 0;
        while i < capacity
            invariant
                i <= capacity,
                buffer@.len() == i,
                forall|j: int| 0 <= j < i ==> buffer@[j] == zero_motion(),
            decreases capacity - i,
        {
            buffer.push(MotionState::default());
            i += 1;
        }
        UpdateState { buffer, used: 0 }
    }
}

/// The fractional remainder of particles due to spawn, in fixed point:
/// `count` is the spawn debt carried between ticks.
#[derive(Clone, Copy, Debug, PartialEq, Eq, Structural)]
pub struct SpawnState {
    pub count: i64,
}

impl SpawnState {
    pub open spec fn wf(self) -> bool {
        0 <= self.count <= ACC_CEIL
    }
}

impl Default for SpawnState {
    /// No spawn debt.
    fn default() -> (d: Self)
        ensures
            d == (SpawnState { count: 0 }),
    {
        SpawnState { count: 0 }
    }
}

/// Emitter configuration: emission rate (particles per second, fixed point),
/// origin and initial velocity of spawned particles.
#[derive(Clone, Copy, Debug, PartialEq, Eq, Structural)]
pub struct Spawner {
    pub rate: i64,
    pub origin: Vec3Fx,
    pub velocity: Vec3Fx,
}

/// The accumulator after one tick's inflow, saturated at [`ACC_CEIL`].
pub open spec fn acc_ticked(count: int, rate: int, dt: int) -> int {
    if count + fpmul(rate, dt) > ACC_CEIL {
        ACC_CEIL as int
    } else {
        count + fpmul(rate, dt)
    }
}

/// How many particles one tick activates: the whole units of the ticked
/// accumulator, clamped to the free capacity.
pub open spec fn spawned_n(count: int, rate: int, dt: int, free: int) -> int {
    let want = acc_ticked(count, rate, dt) / (FP as int);
    if want <= free {
        want
    } else {
        free
    }
}

/// The spawn debt retained after one tick: whatever the activated particles
/// did not consume, fractional part included.
pub open spec fn acc_retained(count: int, rate: int, dt: int, free: int) -> int {
    acc_ticked(count, rate, dt) - spawned_n(count, rate, dt, free) * (FP as int)
}

/// The motion state written into every slot activated by one tick.
pub open spec fn spawned_motion(origin: Vec3Fx, velocity: Vec3Fx, dt: int) -> MotionState {
    MotionState {
        position: origin,
        prev_position: backstep_vec(origin, velocity, dt),
        acceleration: gravity(),
    }
}

impl Spawner {
    pub open spec fn wf(self) -> bool {
        &&& 0 <= self.rate <= RATE_MAX
        &&& self.origin.wf()
        &&& self.velocity.wf()
    }

    pub fn new(rate: i64, origin: Vec3Fx, velocity: Vec3Fx) -> (s: Self)
        requires
            0 <= rate <= RATE_MAX,
            origin.wf(),
            velocity.wf(),
        ensures
            s == (Spawner { rate, origin, velocity }),
            s.wf(),
    {
        Spawner { rate, origin, velocity }
    }

    /// One spawn tick: add `rate * dt` to the accumulator, activate as many
    /// whole particles as the accumulator and the free capacity allow, retain
    /// the unconsumed debt, and initialize every activated slot from the
    /// emitter origin, the initial velocity and the gravity bias.
    pub fn spawn(&mut self, spawn_state: &mut SpawnState, state: &mut UpdateState, dt: i64)
        requires
            old(self).wf(),
            old(spawn_state).wf(),
            old(state).wf(),
            0 <= dt <= DT_MAX,
        ensures
            *final(self) == *old(self),
            final(spawn_state).wf(),
            final(state).wf(),
            final(state).buffer@.len() == old(state).buffer@.len(),
            final(spawn_state).count == acc_retained(
                old(spawn_state).count as int,
                old(self).rate as int,
                dt as int,
                old(state).buffer@.len() - old(state).used,
            ),
            final(state).used == old(state).used + spawned_n(
                old(spawn_state).count as int,
                old(self).rate as int,
                dt as int,
                old(state).buffer@.len() - old(state).used,
            ),
            final(state).used <= final(state).buffer@.len(),
            forall|i: int|
                0 <= i < old(state).used ==> final(state).buffer@[i] == old(state).buffer@[i],
            forall|i: int|
                old(state).used <= i < final(state).used ==> final(state).buffer@[i]
                    == spawned_motion(old(self).origin, old(self).velocity, dt as int),
            forall|i: int|
                final(state).used <= i < old(state).buffer@.len() ==> final(state).buffer@[i]
                    == old(state).buffer@[i],
    {
        let ghost free: int = old(state).buffer@.len() - old(state).used;
        proof {
            assert(-PROD_LIMIT <= (self.rate as int) * (dt as int) <= PROD_LIMIT)
                by (nonlinear_arith)
                requires
                    0 <= self.rate <= RATE_MAX,
                    0 <= dt <= DT_MAX,
            ;
            lemma_fpmul_nonneg(self.rate as int, dt as int);
        }
        // Tick: accumulate inflow, saturating at the debt ceiling.
        let inflow = mul_fp(self.rate, dt);
        let mut acc = spawn_state.count + inflow;
        if acc > ACC_CEIL {
            acc = ACC_CEIL;
        }
        proof {
            assert(acc as int == acc_ticked(old(spawn_state).count as int, self.rate as int, dt as int));
        }
        // Allocate: whole units of debt, clamped to the free capacity.
        let want = whole_units(acc);
        let free_slots = state.buffer.len() - state.used;
        let n: usize = if want as usize <= free_slots {
            want as usize
        } else {
            free_slots
        };
        proof {
            assert(want <= 2097152) by {
                lemma_fundamental_div_mod(acc as int, FP as int);
                lemma_mod_bound(acc as int, FP as int);
                assert(want <= 2097152) by (nonlinear_arith)
                    requires
                        acc as int == (FP as int) * (want as int) + ((acc as int) % (FP as int)),
                        0 <= (acc as int) % (FP as int),
                        acc <= ACC_CEIL,
                        want >= 0,
                ;
            }
            assert(n as int == spawned_n(old(spawn_state).count as int, self.rate as int, dt as int, free));
            lemma_mul_inequality(n as int, want as int, FP as int);
            lemma_fundamental_div_mod(acc as int, FP as int);
            lemma_mod_bound(acc as int, FP as int);
            assert((want as int) * (FP as int) <= acc) by (nonlinear_arith)
                requires
                    acc as int == (FP as int) * (want as int) + ((acc as int) % (FP as int)),
                    0 <= (acc as int) % (FP as int),
            ;
        }
        spawn_state.count = acc - (n as i64) * FP;
        // Initialize the newly claimed slots.
        if n > 0 {
            let motion = MotionState {
                position: self.origin,
                prev_position: Vec3Fx {
                    x: backstep_coord(self.origin.x, self.velocity.x, dt),
                    y: backstep_coord(self.origin.y, self.velocity.y, dt),
                    z: backstep_coord(self.origin.z, self.velocity.z, dt),
                },
                acceleration: Vec3Fx { x: 0, y: GRAVITY_Y, z: 0 },
            };
            proof {
                assert(motion == spawned_motion(old(self).origin, old(self).velocity, dt as int));
            }
            let end = state.used + n;
            let mut i = state.used;
            while i < end
                invariant
                    old(state).used <= i <= end,
                    end <= state.buffer@.len(),
                    state.buffer@.len() == old(state).buffer@.len(),
                    state.used == old(state).used,
                    motion.wf(),
                    forall|j: int|
                        0 <= j < old(state).used ==> state.buffer@[j] == old(state).buffer@[j],
                    forall|j: int| old(state).used <= j < i ==> state.buffer@[j] == motion,
                    forall|j: int|
                        i <= j < old(state).buffer@.len() ==> state.buffer@[j] == old(
                            state,
                        ).buffer@[j],
                decreases end - i,
            {
                state.buffer[i] = motion;
                i += 1;
            }
            state.used = end;
        }
    }
}

/// A spawn tick never activates more particles than the free capacity, and
/// never a negative number.
pub proof fn lemma_spawn_respects_capacity(count: int, rate: int, dt: int, free: int)
    requires
        0 <= count,
        0 <= rate,
        0 <= dt,
        0 <= free,
    ensures
        0 <= spawned_n(count, rate, dt, free) <= free,
{
    lemma_fpmul_nonneg(rate, dt);
    lemma_div_pos_is_pos(acc_ticked(count, rate, dt), FP as int);
}

/// One spawn tick conserves spawn debt exactly: the particles activated plus
/// the debt retained equal the debt brought in plus the tick's inflow,
/// whenever the inflow does not hit the saturation ceiling. When the free
/// capacity does not clamp the tick, the retained debt is a proper fraction.
pub proof fn lemma_spawn_tick_conserves(count: int, rate: int, dt: int, free: int)
    requires
        0 <= count,
        0 <= rate,
        0 <= dt,
        0 <= free,
        count + fpmul(rate, dt) <= ACC_CEIL,
    ensures
        spawned_n(count, rate, dt, free) * (FP as int) + acc_retained(count, rate, dt, free)
            == count + fpmul(rate, dt),
        0 <= acc_retained(count, rate, dt, free),
        acc_ticked(count, rate, dt) / (FP as int) <= free ==> acc_retained(count, rate, dt, free)
            < FP,
    {
    let acc = acc_ticked(count, rate, dt);
    lemma_fpmul_nonneg(rate, dt);
    lemma_fundamental_div_mod(acc, FP as int);
    lemma_mod_bound(acc, FP as int);
    let want = acc / (FP as int);
    let n = spawned_n(count, rate, dt, free);
    assert(n * (FP as int) == (FP as int) * n) by (nonlinear_arith);
    if want > free {
        lemma_mul_inequality(n, want, FP as int);
        assert(free * (FP as int) <= want * (FP as int)) by (nonlinear_arith)
            requires
                free <= want,
                0 <= FP,
        ;
        assert(want * (FP as int) == (FP as int) * want) by (nonlinear_arith);
    }
}

/// When neither the ceiling nor the capacity clamps a tick, the tick agrees
/// with the ideal division-and-remainder model used by [`lemma_spawn_run_conserves`].
pub proof fn lemma_tick_matches_run(count: int, rate: int, dt: int, free: int)
    requires
        0 <= count,
        count + fpmul(rate, dt) <= ACC_CEIL,
        (count + fpmul(rate, dt)) / (FP as int) <= free,
    ensures
        spawned_n(count, rate, dt, free) == (count + fpmul(rate, dt)) / (FP as int),
        acc_retained(count, rate, dt, free) == (count + fpmul(rate, dt)) % (FP as int),
{
    let acc = count + fpmul(rate, dt);
    lemma_fundamental_div_mod(acc, FP as int);
    assert((acc / (FP as int)) * (FP as int) == (FP as int) * (acc / (FP as int)))
        by (nonlinear_arith);
}

/// Total particles spawned by an ideal (capacity-unclamped) run of ticks,
/// starting from debt `acc0`, with one accumulator inflow per tick.
pub open spec fn run_spawned(acc0: int, inflows: Seq<int>) -> int
    decreases inflows.len(),
{
    if inflows.len() == 0 {
        0
    } else {
        (acc0 + inflows[0]) / (FP as int) + run_spawned(
            (acc0 + inflows[0]) % (FP as int),
            inflows.skip(1),
        )
    }
}

/// The debt left after an ideal run of ticks.
pub open spec fn run_acc(acc0: int, inflows: Seq<int>) -> int
    decreases inflows.len(),
{
    if inflows.len() == 0 {
        acc0
    } else {
        run_acc((acc0 + inflows[0]) % (FP as int), inflows.skip(1))
    }
}

/// The sum of a sequence of inflows.
pub open spec fn sum_seq(s: Seq<int>) -> int
    decreases s.len(),
{
    if s.len() == 0 {
        0
    } else {
        s[0] + sum_seq(s.skip(1))
    }
}

/// Cumulative spawn conservation: over any sequence of ticks that the free
/// capacity never clamps, the fractional accumulator neither loses nor
/// duplicates spawn debt, so the particles spawned track the accumulated
/// inflow (`rate * dt` summed over the run) to within one particle.
pub proof fn lemma_spawn_run_conserves(acc0: int, inflows: Seq<int>)
    requires
        0 <= acc0 < FP,
        forall|i: int| 0 <= i < inflows.len() ==> 0 <= #[trigger] inflows[i],
    ensures
        (FP as int) * run_spawned(acc0, inflows) + run_acc(acc0, inflows) == acc0 + sum_seq(
            inflows,
        ),
        0 <= run_acc(acc0, inflows) < FP,
        (FP as int) * run_spawned(acc0, inflows) <= acc0 + sum_seq(inflows) < (FP as int) * (
        run_spawned(acc0, inflows) + 1),
    decreases inflows.len(),
{
    if inflows.len() == 0 {
    } else {
        let a1 = acc0 + inflows[0];
        lemma_fundamental_div_mod(a1, FP as int);
        lemma_mod_bound(a1, FP as int);
        assert(forall|i: int|
            0 <= i < inflows.skip(1).len() ==> 0 <= #[trigger] inflows.skip(1)[i]) by {
            assert(forall|i: int|
                0 <= i < inflows.skip(1).len() ==> inflows.skip(1)[i] == inflows[i + 1]);
        }
        lemma_spawn_run_conserves(a1 % (FP as int), inflows.skip(1));
    }
}

/// Emission converges to the configured rate: over any sequence of time
/// steps whose ticks the capacity never clamps, the particles spawned track
/// the accumulated emission `rate * dt` (summed tick by tick, in fixed
/// point) to within one particle.
pub proof fn lemma_spawn_rate_convergence(acc0: int, rate: int, dts: Seq<int>)
    requires
        0 <= acc0 < FP,
        0 <= rate,
        forall|i: int| 0 <= i < dts.len() ==> 0 <= #[trigger] dts[i],
    ensures
        (FP as int) * run_spawned(acc0, dts.map_values(|dt: int| fpmul(rate, dt))) <= acc0
            + sum_seq(dts.map_values(|dt: int| fpmul(rate, dt))) < (FP as int) * (run_spawned(
            acc0,
            dts.map_values(|dt: int| fpmul(rate, dt)),
        ) + 1),
{
    let inflows = dts.map_values(|dt: int| fpmul(rate, dt));
    assert forall|i: int| 0 <= i < inflows.len() implies 0 <= #[trigger] inflows[i] by {
        lemma_fpmul_nonneg(rate, dts[i]);
    }
    lemma_spawn_run_conserves(acc0, inflows);
}

/// At rest (previous position equal to the position) a zero time step leaves
/// a motion state exactly unchanged: the integrator is idempotent there.
pub proof fn lemma_verlet_rest_zero_dt(m: MotionState)
    requires
        m.wf(),
        m.prev_position == m.position,
    ensures
        verlet_motion(m, 0) == m,
{
    assert(m.acceleration.x as int * 0 == 0) by (nonlinear_arith);
    assert(m.acceleration.y as int * 0 == 0) by (nonlinear_arith);
    assert(m.acceleration.z as int * 0 == 0) by (nonlinear_arith);
}

/// The integrator: advances every active particle one Verlet step.
#[derive(Clone, Copy, Debug, Default)]
pub struct Updater {}

impl Updater {
    /// Advance slots `[0, used)` by one time step; inert slots are untouched.
    pub fn update(&mut self, state: &mut UpdateState, dt: i64)
        requires
            old(state).wf(),
            0 <= dt <= DT_MAX,
        ensures
            final(state).wf(),
            final(state).used == old(state).used,
            final(state).buffer@.len() == old(state).buffer@.len(),
            forall|i: int|
                0 <= i < old(state).used ==> final(state).buffer@[i] == verlet_motion(
                    old(state).buffer@[i],
                    dt as int,
                ),
            forall|i: int|
                old(state).used <= i < old(state).buffer@.len() ==> final(state).buffer@[i] == old(
                    state,
                ).buffer@[i],
    {
        let mut i: usize = 0;
        while i < state.used
            invariant
                i <= state.used,
                state.used == old(state).used,
                state.buffer@.len() == old(state).buffer@.len(),
                old(state).wf(),
                state.wf(),
                0 <= dt <= DT_MAX,
                forall|j: int|
                    0 <= j < i ==> state.buffer@[j] == verlet_motion(
                        old(state).buffer@[j],
                        dt as int,
                    ),
                forall|j: int|
                    i <= j < old(state).buffer@.len() ==> state.buffer@[j] == old(
                        state,
                    ).buffer@[j],
            decreases state.used - i,
        {
            let m = state.buffer[i];
            let prev = m.position;
            let next = MotionState {
                position: Vec3Fx {
                    x: verlet_coord(m.position.x, m.prev_position.x, m.acceleration.x, dt),
                    y: verlet_coord(m.position.y, m.prev_position.y, m.acceleration.y, dt),
                    z: verlet_coord(m.position.z, m.prev_position.z, m.acceleration.z, dt),
                },
                prev_position: prev,
                acceleration: m.acceleration,
            };
            state.buffer[i] = next;
            i += 1;
        }
    }
}

} // verus!
