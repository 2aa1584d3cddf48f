//! Contact detection and the elastic-collision law.
//!
//! The light block touches the wall when its leading edge reaches the
//! boundary; the two blocks touch when the heavy one, approaching from the
//! positive side, reaches the light one's position.  A wall contact reflects
//! the light block's velocity; a block contact exchanges velocity by the 1-D
//! elastic law
//!
//! ```text
//! v1' = ((m1 - m2) / (m1 + m2)) * v1 + (2 * m2 / (m1 + m2)) * v2
//! ```
//!
//! computed here as one exact fraction.  Both new velocities are computed from
//! the pre-collision values before either is written.

use vstd::prelude::*;

use crate::body::{Body, BodyView};
use crate::rational::{
    clamp_i64, fits_i64, q_le, q_neg, q_pos, q_sub, Q, Rat,
};

verus! {

/// Contact between the light block's leading edge and the wall: the edge is
/// at or past the boundary.
pub open spec fn wall_contact(light: BodyView, boundary: Q) -> bool {
    q_le(q_sub(light.position, light.half_extent), boundary)
}

/// Contact between the two blocks: the heavy block's position has reached or
/// passed the light one's.
pub open spec fn bodies_in_contact(heavy: BodyView, light: BodyView) -> bool {
    q_le(heavy.position, light.position)
}

/// Ideal elastic reflection off the infinite-mass wall: the velocity is
/// negated; nothing else changes.
pub open spec fn spec_reflect(b: BodyView) -> BodyView {
    BodyView { velocity: q_neg(b.velocity), ..b }
}

/// Post-collision velocity of the body with mass `m1` and velocity `v1`
/// after an elastic collision with the body of mass `m2` and velocity `v2`:
/// the law above brought to one fraction over the common denominator
/// `(m1 + m2) * v1.den * v2.den`.
pub open spec fn spec_elastic_velocity(m1: Q, m2: Q, v1: Q, v2: Q) -> Q {
    Q {
        num: (m1.num * m2.den - m2.num * m1.den) * (v1.num * v2.den)
            + (2 * (m2.num * m1.den)) * (v2.num * v1.den),
        den: (m1.num * m2.den + m2.num * m1.den) * (v1.den * v2.den),
    }
}

/// The exact elastic-velocity fraction, and each intermediate it is built
/// from, fits the machine representation.
pub open spec fn elastic_fits(m1: Q, m2: Q, v1: Q, v2: Q) -> bool {
    let am = m1.num * m2.den;
    let bm = m2.num * m1.den;
    let ev = v1.num * v2.den;
    let gv = v2.num * v1.den;
    let dd = v1.den * v2.den;
    let t1 = (am - bm) * ev;
    let t2 = (2 * bm) * gv;
    fits_i64(am) && fits_i64(bm) && fits_i64(ev) && fits_i64(gv) && fits_i64(dd)
        && fits_i64(t1) && fits_i64(t2) && fits_i64(t1 + t2) && fits_i64((am + bm) * dd)
}

/// Bounds on the product of two `i64`-sized integers, for `i128` overflow
/// reasoning on the law's intermediates.
proof fn lemma_prod_i64(x: int, y: int)
    by (nonlinear_arith)
    requires
        i64::MIN <= x <= i64::MAX,
        i64::MIN <= y <= i64::MAX,
    ensures
        (i64::MIN as int) * (i64::MAX as int) <= x * y <= (i64::MIN as int) * (i64::MIN as int),
{
}

/// Bounds on the product of a doubled `i64`-sized integer and an `i64`-sized
/// one: it stays strictly inside the `i128` range.
proof fn lemma_prod_wide(x: int, y: int)
    by (nonlinear_arith)
    requires
        -2 * (i64::MAX as int) <= x <= 2 * (i64::MAX as int),
        i64::MIN <= y <= i64::MAX,
    ensures
        i128::MIN <= x * y <= i128::MAX,
{
}

/// The product of two positive integers is positive.
proof fn lemma_pos_prod(x: int, y: int)
    by (nonlinear_arith)
    requires
        x >= 1,
        y >= 1,
    ensures
        x * y >= 1,
{
}

/// Computes the elastic-collision law for the first body's new velocity,
/// exactly.  `None` exactly when an intermediate of the law leaves the
/// machine representation.
pub fn elastic_velocity(m1: Rat, m2: Rat, v1: Rat, v2: Rat) -> (r: Option<Rat>)
    requires
        m1.wf(),
        m2.wf(),
        v1.wf(),
        v2.wf(),
        q_pos(m1@),
        q_pos(m2@),
    ensures
        r matches Some(s) ==> s@ == spec_elastic_velocity(m1@, m2@, v1@, v2@) && s.wf(),
        r is Some <==> elastic_fits(m1@, m2@, v1@, v2@),
{
    proof {
        lemma_prod_i64(m1@.num, m2@.den);
        lemma_prod_i64(m2@.num, m1@.den);
        lemma_prod_i64(v1@.num, v2@.den);
        lemma_prod_i64(v2@.num, v1@.den);
        lemma_prod_i64(v1@.den, v2@.den);
    }
    // Both masses brought to the common mass denominator m1.den * m2.den.
    let am = match clamp_i64((m1.numerator() as i128) * (m2.denominator() as i128)) {
        Some(x) => x,
        None => return None,
    };
    let bm = match clamp_i64((m2.numerator() as i128) * (m1.denominator() as i128)) {
        Some(x) => x,
        None => return None,
    };
    // Both velocities brought to the common velocity denominator
    // v1.den * v2.den.
    let ev = match clamp_i64((v1.numerator() as i128) * (v2.denominator() as i128)) {
        Some(x) => x,
        None => return None,
    };
    let gv = match clamp_i64((v2.numerator() as i128) * (v1.denominator() as i128)) {
        Some(x) => x,
        None => return None,
    };
    let dd = match clamp_i64((v1.denominator() as i128) * (v2.denominator() as i128)) {
        Some(x) => x,
        None => return None,
    };
    proof {
        // Positive masses over positive denominators make both scaled masses
        // positive, which keeps the differences below within twice the word
        // range.
        lemma_pos_prod(m1@.num, m2@.den);
        lemma_pos_prod(m2@.num, m1@.den);
        lemma_pos_prod(v1@.den, v2@.den);
        lemma_prod_wide((am as int) - (bm as int), ev as int);
        lemma_prod_wide(2 * (bm as int), gv as int);
        lemma_prod_wide((am as int) + (bm as int), dd as int);
    }
    let t1 = match clamp_i64(((am as i128) - (bm as i128)) * (ev as i128)) {
        Some(x) => x,
        None => return None,
    };
    let t2 = match clamp_i64((2 * (bm as i128)) * (gv as i128)) {
        Some(x) => x,
        None => return None,
    };
    let num = match clamp_i64((t1 as i128) + (t2 as i128)) {
        Some(x) => x,
        None => return None,
    };
    let den = match clamp_i64(((am as i128) + (bm as i128)) * (dd as i128)) {
        Some(x) => x,
        None => return None,
    };
    proof {
        // The sum of the two positive scaled masses times the positive
        // common denominator keeps the new denominator positive.
        lemma_pos_prod((am as int) + (bm as int), dd as int);
    }
    Some(Rat::from_parts(num, den))
}

/// Resolves one block-block contact: both post-collision velocities, each
/// computed from the pre-collision pair.  `None` exactly when either exact
/// result leaves the machine representation; nothing is written then.
pub fn resolve_block_collision(heavy: &Body, light: &Body) -> (r: Option<(Rat, Rat)>)
    requires
        heavy.wf(),
        light.wf(),
    ensures
        r matches Some(vs) ==> vs.0@ == spec_elastic_velocity(
            heavy@.mass,
            light@.mass,
            heavy@.velocity,
            light@.velocity,
        ) && vs.1@ == spec_elastic_velocity(
            light@.mass,
            heavy@.mass,
            light@.velocity,
            heavy@.velocity,
        ) && vs.0.wf() && vs.1.wf(),
        r is Some <==> elastic_fits(heavy@.mass, light@.mass, heavy@.velocity, light@.velocity)
            && elastic_fits(light@.mass, heavy@.mass, light@.velocity, heavy@.velocity),
{
    let new_heavy = match elastic_velocity(heavy.mass, light.mass, heavy.velocity, light.velocity) {
        Some(v) => v,
        None => return None,
    };
    let new_light = match elastic_velocity(light.mass, heavy.mass, light.velocity, heavy.velocity) {
        Some(v) => v,
        None => return None,
    };
    Some((new_heavy, new_light))
}

} // verus!
