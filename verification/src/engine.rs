//! The simulation driver.
//!
//! One tick advances both blocks by their velocity, then runs the wall
//! detector, then the block-block detector; each detector, on contact,
//! rewrites velocity by the elastic law and records exactly one collision
//! event.  The whole transition is the mathematical function [`spec_tick`];
//! the executable [`Simulation::tick`] either realises it exactly or, when an
//! exact intermediate leaves the machine representation, reports overflow and
//! leaves the state untouched.

use vstd::prelude::*;

use crate::body::{body_wf, spec_integrate, Body, BodyView, Wall};
use crate::collision::{
    bodies_in_contact, elastic_fits, resolve_block_collision, spec_elastic_velocity, spec_reflect,
    wall_contact,
};
use crate::counter::CollisionCounter;
use crate::rational::{
    q_add_fits, q_from_int, q_le, q_neg_fits, q_pos, q_sub_fits, q_wf, Q, Rat,
};

verus! {

/// Why a simulation could not be built.  Configuration errors are fatal and
/// detected at construction: the simulation must not start.
#[derive(Clone, Copy, Debug, PartialEq, Eq)]
pub enum ConfigError {
    /// A block was given a zero or negative mass.
    NonPositiveMass,
    /// The digit count asks for a mass ratio beyond the machine representation.
    MassRatioOverflow,
}

/// Why a tick could not complete.
#[derive(Clone, Copy, Debug, PartialEq, Eq)]
pub enum SimError {
    /// An exact intermediate left the machine representation; the state is
    /// unchanged.
    NumericOverflow,
}

/// Which detectors fired during one tick: at most one event each.
#[derive(Clone, Copy, Debug, PartialEq, Eq)]
pub struct TickEvents {
    /// The light block met the wall this tick.
    pub wall_collision: bool,
    /// The heavy block met the light block this tick.
    pub block_collision: bool,
}

/// Mathematical state of the whole simulation.
pub ghost struct SimView {
    pub light: BodyView,
    pub heavy: BodyView,
    pub boundary: Q,
    pub total: int,
}

/// Valid simulation state: both blocks valid, the boundary well formed, the
/// count non-negative.
pub open spec fn sim_wf(s: SimView) -> bool {
    body_wf(s.light) && body_wf(s.heavy) && q_wf(s.boundary) && s.total >= 0
}

/// The wall detector fires this tick: after integration the light block's
/// leading edge is at or past the boundary.
pub open spec fn spec_wall_event(s: SimView) -> bool {
    wall_contact(spec_integrate(s.light), s.boundary)
}

/// The block-block detector fires this tick: after integration the heavy
/// block's position has reached or passed the light one's.
pub open spec fn spec_block_event(s: SimView) -> bool {
    bodies_in_contact(spec_integrate(s.heavy), spec_integrate(s.light))
}

/// How many collision events one tick records: one per detector that fires,
/// never more.
pub open spec fn spec_event_count(s: SimView) -> int {
    (if spec_wall_event(s) { 1int } else { 0int })
        + (if spec_block_event(s) { 1int } else { 0int })
}

/// One tick of the simulation: integrate both blocks, reflect the light one
/// off the wall on contact, then exchange velocities by the elastic law on
/// block contact, both new velocities computed from the pre-collision pair.
/// The counter rises by the number of detectors that fired.
pub open spec fn spec_tick(s: SimView) -> SimView {
    let light1 = spec_integrate(s.light);
    let heavy1 = spec_integrate(s.heavy);
    let wall_hit = wall_contact(light1, s.boundary);
    let light2 = if wall_hit { spec_reflect(light1) } else { light1 };
    let block_hit = bodies_in_contact(heavy1, light1);
    let heavy3 = if block_hit {
        BodyView {
            velocity: spec_elastic_velocity(
                heavy1.mass,
                light2.mass,
                heavy1.velocity,
                light2.velocity,
            ),
            ..heavy1
        }
    } else {
        heavy1
    };
    let light3 = if block_hit {
        BodyView {
            velocity: spec_elastic_velocity(
                light2.mass,
                heavy1.mass,
                light2.velocity,
                heavy1.velocity,
            ),
            ..light2
        }
    } else {
        light2
    };
    SimView { light: light3, heavy: heavy3, boundary: s.boundary, total: s.total + spec_event_count(s) }
}

/// Every exact intermediate of one tick fits the machine representation.
pub open spec fn spec_tick_fits(s: SimView) -> bool {
    let light1 = spec_integrate(s.light);
    let heavy1 = spec_integrate(s.heavy);
    let wall_hit = wall_contact(light1, s.boundary);
    let light2 = if wall_hit { spec_reflect(light1) } else { light1 };
    q_add_fits(s.light.position, s.light.velocity)
        && q_add_fits(s.heavy.position, s.heavy.velocity)
        && q_sub_fits(light1.position, light1.half_extent)
        && (wall_hit ==> q_neg_fits(light1.velocity))
        && (bodies_in_contact(heavy1, light1) ==> elastic_fits(
            heavy1.mass,
            light2.mass,
            heavy1.velocity,
            light2.velocity,
        ) && elastic_fits(light2.mass, heavy1.mass, light2.velocity, heavy1.velocity))
}

/// The run has reached its terminal quiescent state: both blocks drift away
/// from the wall and the heavy one at least as fast as the light one, so in
/// the canonical run (blocks apart, clear of the wall) no further contact can
/// come.  Note that the heavy block's velocity alone being non-negative and
/// at least the light one's is not enough: the light block may still be
/// heading for the wall, with a reflection and one more block contact ahead.
pub open spec fn sim_settled(s: SimView) -> bool {
    q_le(q_from_int(0), s.light.velocity) && q_le(s.light.velocity, s.heavy.velocity)
}

/// The mass of the heavy block for `n` digits of pi: `100^n`.
pub open spec fn pow100(n: nat) -> int
    decreases n,
{
    if n == 0 {
        1
    } else {
        100 * pow100((n - 1) as nat)
    }
}

proof fn lemma_pow100_pos(n: nat)
    ensures
        pow100(n) >= 1,
    decreases n,
{
    if n > 0 {
        lemma_pow100_pos((n - 1) as nat);
    }
}

proof fn lemma_pow100_mono(a: nat, b: nat)
    requires
        a <= b,
    ensures
        pow100(a) <= pow100(b),
    decreases b,
{
    if a < b {
        lemma_pow100_mono(a, (b - 1) as nat);
        lemma_pow100_pos((b - 1) as nat);
    }
}

/// The validated mass ratio `100^digits` for the configured digit count.
/// The machine word caps the count at nine digits; a larger count is a
/// configuration error, rejected before any simulation starts.
pub fn mass_ratio_for_digits(digits: u32) -> (r: Result<i64, ConfigError>)
    ensures
        r matches Ok(m) ==> m as int == pow100(digits as nat) && m >= 1,
        r is Ok <==> digits <= 9,
        r matches Err(e) ==> e == ConfigError::MassRatioOverflow,
{
    if digits > 9 {
        return Err(ConfigError::MassRatioOverflow);
    }
    let mut acc: i64 = 1;
    let mut i: u32 = 0;
    while i < digits
        invariant
            i <= digits <= 9,
            acc as int == pow100(i as nat),
        decreases digits - i,
    {
        proof {
            lemma_pow100_mono(i as nat, 8);
            lemma_pow100_pos(i as nat);
            reveal_with_fuel(pow100, 10);
            assert(pow100(8) == 10000000000000000);
        }
        acc = acc * 100;
        i = i + 1;
    }
    proof {
        lemma_pow100_pos(digits as nat);
    }
    Ok(acc)
}

/// One simulation instance: the light block, the heavy block, the wall, and
/// the collision counter.  Built once from validated configuration; advanced
/// only through [`Simulation::tick`].
#[derive(Clone, Copy, Debug)]
pub struct Simulation {
    light: Body,
    heavy: Body,
    wall: Wall,
    counter: CollisionCounter,
}

impl View for Simulation {
    type V = SimView;

    closed spec fn view(&self) -> SimView {
        SimView {
            light: self.light@,
            heavy: self.heavy@,
            boundary: self.wall@,
            total: self.counter@ as int,
        }
    }
}

impl Simulation {
    /// Both blocks and the boundary are valid in their machine words.
    pub closed spec fn wf(self) -> bool {
        self.light.wf() && self.heavy.wf() && self.wall.boundary.wf()
    }

    /// Builds a simulation from its fixed configuration, rejecting a zero or
    /// negative mass on either block.  The counter starts at zero.
    pub fn new(light: Body, heavy: Body, wall: Wall) -> (r: Result<Simulation, ConfigError>)
        requires
            light.position.wf(),
            light.velocity.wf(),
            light.mass.wf(),
            light.half_extent.wf(),
            heavy.position.wf(),
            heavy.velocity.wf(),
            heavy.mass.wf(),
            heavy.half_extent.wf(),
            wall.boundary.wf(),
        ensures
            r matches Ok(s) ==> s@ == (SimView {
                light: light@,
                heavy: heavy@,
                boundary: wall@,
                total: 0,
            }) && s.wf(),
            r is Ok <==> q_pos(light@.mass) && q_pos(heavy@.mass),
            r matches Err(e) ==> e == ConfigError::NonPositiveMass,
    {
        if light.mass.is_positive() && heavy.mass.is_positive() {
            Ok(Simulation { light, heavy, wall, counter: CollisionCounter::new() })
        } else {
            Err(ConfigError::NonPositiveMass)
        }
    }

    /// Advances the simulation by one tick, realising [`spec_tick`] exactly.
    /// On success it reports which detectors fired; the counter has risen by
    /// that many events.  When an exact intermediate leaves the machine
    /// representation, nothing is written and the state is exactly as before.
    pub fn tick(&mut self) -> (r: Result<TickEvents, SimError>)
        requires
            old(self).wf(),
            old(self)@.total + 2 <= u64::MAX,
        ensures
            final(self).wf(),
            r matches Ok(ev) ==> final(self)@ == spec_tick(old(self)@)
                && ev.wall_collision == spec_wall_event(old(self)@)
                && ev.block_collision == spec_block_event(old(self)@),
            r matches Err(e) ==> *final(self) == *old(self) && e == SimError::NumericOverflow,
            r is Ok <==> spec_tick_fits(old(self)@),
    {
        // Motion integration: both blocks move by their velocity,
        // unconditionally, before any contact test.
        let new_light_pos = match self.light.position.plus(self.light.velocity) {
            Some(p) => p,
            None => return Err(SimError::NumericOverflow),
        };
        let new_heavy_pos = match self.heavy.position.plus(self.heavy.velocity) {
            Some(p) => p,
            None => return Err(SimError::NumericOverflow),
        };
        // Wall detection: the light block's leading edge against the fixed
        // boundary.  On contact the velocity is negated: ideal elastic
        // reflection off an infinite mass.
        let leading_edge = match new_light_pos.minus(self.light.half_extent) {
            Some(e) => e,
            None => return Err(SimError::NumericOverflow),
        };
        let wall_hit = leading_edge.le(&self.wall.boundary);
        let light_vel_walled = if wall_hit {
            match self.light.velocity.negated() {
                Some(v) => v,
                None => return Err(SimError::NumericOverflow),
            }
        } else {
            self.light.velocity
        };
        // Block-block detection on the integrated positions.
        let light_moved = Body::new(
            new_light_pos,
            light_vel_walled,
            self.light.mass,
            self.light.half_extent,
        );
        let heavy_moved = Body::new(
            new_heavy_pos,
            self.heavy.velocity,
            self.heavy.mass,
            self.heavy.half_extent,
        );
        let block_hit = heavy_moved.position.le(&light_moved.position);
        let (heavy_done, light_done) = if block_hit {
            match resolve_block_collision(&heavy_moved, &light_moved) {
                Some((heavy_vel, light_vel)) => (
                    Body::new(heavy_moved.position, heavy_vel, heavy_moved.mass, heavy_moved.half_extent),
                    Body::new(light_moved.position, light_vel, light_moved.mass, light_moved.half_extent),
                ),
                None => return Err(SimError::NumericOverflow),
            }
        } else {
            (heavy_moved, light_moved)
        };
        // Commit the tick and record one event per detector that fired.
        self.light = light_done;
        self.heavy = heavy_done;
        if wall_hit {
            self.counter.record_event();
        }
        if block_hit {
            self.counter.record_event();
        }
        Ok(TickEvents { wall_collision: wall_hit, block_collision: block_hit })
    }

    /// The run has reached its terminal quiescent state.
    pub fn has_settled(&self) -> (r: bool)
        requires
            self.wf(),
        ensures
            r == sim_settled(self@),
    {
        let zero = Rat::from_int(0);
        zero.le(&self.light.velocity) && self.light.velocity.le(&self.heavy.velocity)
    }

    /// The light block's current position.
    pub fn light_position(&self) -> (r: Rat)
        ensures
            r@ == self@.light.position,
    {
        self.light.position
    }

    /// The light block's current velocity.
    pub fn light_velocity(&self) -> (r: Rat)
        ensures
            r@ == self@.light.velocity,
    {
        self.light.velocity
    }

    /// The heavy block's current position.
    pub fn heavy_position(&self) -> (r: Rat)
        ensures
            r@ == self@.heavy.position,
    {
        self.heavy.position
    }

    /// The heavy block's current velocity.
    pub fn heavy_velocity(&self) -> (r: Rat)
        ensures
            r@ == self@.heavy.velocity,
    {
        self.heavy.velocity
    }

    /// The running collision total, for external display.
    pub fn collision_total(&self) -> (r: u64)
        ensures
            r as int == self@.total,
    {
        self.counter.current_total()
    }
}

} // verus!
