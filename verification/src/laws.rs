//! The library's laws, stated and proved.
//!
//! The elastic-collision law conserves momentum and kinetic energy exactly;
//! a wall reflection preserves speed exactly; one tick records exactly one
//! event per detector that fired, so the counter never moves except upward,
//! by the number of contacts detected.

use vstd::prelude::*;

use crate::body::BodyView;
use crate::collision::{spec_elastic_velocity, spec_reflect};
use crate::engine::{spec_block_event, spec_event_count, spec_tick, spec_wall_event, SimView};
use crate::rational::{q_abs, q_add, q_eq, q_mul, q_wf, Q};

verus! {

/// Total momentum of two bodies: `m1 * v1 + m2 * v2`.
pub open spec fn total_momentum(m1: Q, v1: Q, m2: Q, v2: Q) -> Q {
    q_add(q_mul(m1, v1), q_mul(m2, v2))
}

/// The fraction one half.
pub open spec fn q_one_half() -> Q {
    Q { num: 1, den: 2 }
}

/// Kinetic energy of one body: `(1/2) * m * v^2`.
pub open spec fn kinetic_energy(m: Q, v: Q) -> Q {
    q_mul(q_one_half(), q_mul(m, q_mul(v, v)))
}

/// Total kinetic energy of two bodies.
pub open spec fn total_kinetic_energy(m1: Q, v1: Q, m2: Q, v2: Q) -> Q {
    q_add(kinetic_energy(m1, v1), kinetic_energy(m2, v2))
}

/// Products regroup across a pair of factors.
proof fn lemma_regroup(x: int, u: int, y: int, v: int)
    by (nonlinear_arith)
    ensures
        (x * u) * (y * v) == (x * y) * (u * v),
{
}

/// A factor rotates through a nested product.
proof fn lemma_rotate(x: int, y: int, z: int)
    by (nonlinear_arith)
    ensures
        x * (y * z) == z * (x * y),
        x * (y * z) == y * (x * z),
        x * (y * z) == (x * y) * z,
{
}

/// Multiplication distributes over addition and subtraction.
proof fn lemma_distribute(x: int, y: int, z: int)
    by (nonlinear_arith)
    ensures
        x * y + x * z == x * (y + z),
        y * x + z * x == (y + z) * x,
        x * (y - z) == x * y - x * z,
{
}

/// Multiplication commutes.
proof fn lemma_commute(x: int, y: int)
    by (nonlinear_arith)
    ensures
        x * y == y * x,
{
}

/// A product of squares is the square of the product.
proof fn lemma_square_of_product(x: int, y: int)
    by (nonlinear_arith)
    ensures
        (x * x) * (y * y) == (x * y) * (x * y),
{
}

/// Difference of squares.
proof fn lemma_difference_of_squares(x: int, y: int)
    by (nonlinear_arith)
    ensures
        (x - y) * (x + y) == x * x - y * y,
{
}

/// Doubled and quadrupled factors combine.
proof fn lemma_constant_pairs(x: int, u: int, y: int, v: int)
    by (nonlinear_arith)
    ensures
        (1 * (x * u)) * (2 * (y * v)) == 2 * ((x * y) * (u * v)),
        (2 * (x * u)) * (2 * (y * v)) == 4 * ((x * y) * (u * v)),
        (2 * x) * (4 * y) == 8 * (x * y),
{
}

/// Final regrouping shared by both conservation laws.
proof fn lemma_fin(s: int, fh: int, w: int, bd: int)
    by (nonlinear_arith)
    ensures
        ((s * fh) * (s * w)) * (bd * fh) == w * (bd * ((s * fh) * (s * fh))),
{
}

/// The scaled elastic law conserves scaled momentum: with both masses scaled
/// to a common denominator (`aa`, `cc`) and both velocities to a common
/// denominator (`ee`, `gg`), the two post-collision numerators balance.
#[verifier::rlimit(100)]
proof fn lemma_scaled_momentum(aa: int, cc: int, ee: int, gg: int)
    by (nonlinear_arith)
    ensures
        aa * ((aa - cc) * ee + (2 * cc) * gg) + cc * ((cc - aa) * gg + (2 * aa) * ee)
            == (aa + cc) * (aa * ee + cc * gg),
{
}

/// The scaled elastic law reverses the relative velocity: the sum of old and
/// new scaled velocity is the same for both bodies.
#[verifier::rlimit(100)]
proof fn lemma_scaled_reversal(aa: int, cc: int, ee: int, gg: int)
    by (nonlinear_arith)
    ensures
        ((aa - cc) * ee + (2 * cc) * gg) + (aa + cc) * ee == ((cc - aa) * gg + (2 * aa) * ee) + (
        aa + cc) * gg,
{
}

/// Scaled energy balance follows from scaled momentum balance and relative
/// velocity reversal, by factoring each energy difference.
proof fn lemma_scaled_energy(aa: int, cc: int, p: int, q: int, s: int, e: int, g: int)
    requires
        aa * p + cc * q == s * (aa * e + cc * g),
        p + s * e == q + s * g,
    ensures
        aa * (p * p) + cc * (q * q) == (s * s) * (aa * (e * e) + cc * (g * g)),
{
    lemma_difference_of_squares(p, s * e);
    lemma_distribute(aa, p * p, (s * e) * (s * e));
    assert(aa * ((p - s * e) * (p + s * e)) == aa * (p * p) - aa * ((s * e) * (s * e)));
    lemma_square_of_product(s, e);
    assert(aa * ((s * e) * (s * e)) == (s * s) * (aa * (e * e))) by {
        lemma_square_of_product(s, e);
        lemma_rotate(s * s, aa, e * e);
    }
    lemma_difference_of_squares(q, s * g);
    lemma_distribute(cc, q * q, (s * g) * (s * g));
    assert(cc * ((q - s * g) * (q + s * g)) == cc * (q * q) - cc * ((s * g) * (s * g)));
    assert(cc * ((s * g) * (s * g)) == (s * s) * (cc * (g * g))) by {
        lemma_square_of_product(s, g);
        lemma_rotate(s * s, cc, g * g);
    }
    // The two factored differences share the factor p + s*e == q + s*g.
    lemma_rotate(aa, p - s * e, p + s * e);
    lemma_rotate(cc, q - s * g, q + s * g);
    assert(cc * ((q - s * g) * (q + s * g)) == (cc * (q - s * g)) * (p + s * e));
    // Their coefficients sum to zero by momentum balance.
    lemma_distribute(aa, p, s * e);
    lemma_distribute(cc, q, s * g);
    lemma_rotate(aa, s, e);
    lemma_rotate(cc, s, g);
    lemma_distribute(s, aa * e, cc * g);
    assert(aa * (p - s * e) + cc * (q - s * g) == 0);
    lemma_distribute(p + s * e, aa * (p - s * e), cc * (q - s * g));
    assert((aa * (p - s * e)) * (p + s * e) + (cc * (q - s * g)) * (p + s * e) == (aa * (p - s
        * e) + cc * (q - s * g)) * (p + s * e));
    assert((aa * (p - s * e) + cc * (q - s * g)) * (p + s * e) == 0 * (p + s * e));
    assert((s * s) * (aa * (e * e)) + (s * s) * (cc * (g * g)) == (s * s) * (aa * (e * e) + cc
        * (g * g))) by {
        lemma_distribute(s * s, aa * (e * e), cc * (g * g));
    }
}

/// Momentum conservation: for any well-formed masses and velocities, the
/// elastic-collision law leaves `m1 * v1 + m2 * v2` unchanged, exactly.
pub proof fn lemma_momentum_conserved(m1: Q, m2: Q, v1: Q, v2: Q)
    requires
        q_wf(m1),
        q_wf(m2),
        q_wf(v1),
        q_wf(v2),
    ensures
        q_eq(
            total_momentum(
                m1,
                spec_elastic_velocity(m1, m2, v1, v2),
                m2,
                spec_elastic_velocity(m2, m1, v2, v1),
            ),
            total_momentum(m1, v1, m2, v2),
        ),
{
    let p = spec_elastic_velocity(m1, m2, v1, v2);
    let q = spec_elastic_velocity(m2, m1, v2, v1);
    let aa = m1.num * m2.den;
    let cc = m2.num * m1.den;
    let ee = v1.num * v2.den;
    let gg = v2.num * v1.den;
    let ss = aa + cc;
    let fh = v1.den * v2.den;
    let sf = ss * fh;
    let bd = m1.den * m2.den;
    let ww = aa * ee + cc * gg;
    // Both new denominators are the same product.
    lemma_commute(v2.den, v1.den);
    assert(p.den == sf);
    assert(q.den == sf);
    // Regroup every cross product of the two momentum sums.
    lemma_regroup(m1.num, p.num, m2.den, q.den);
    lemma_regroup(m2.num, q.num, m1.den, p.den);
    lemma_regroup(m1.den, p.den, m2.den, q.den);
    lemma_regroup(m1.num, v1.num, m2.den, v2.den);
    lemma_regroup(m2.num, v2.num, m1.den, v1.den);
    lemma_regroup(m1.den, v1.den, m2.den, v2.den);
    // The new numerators balance as the scaled law says.
    lemma_rotate(aa, p.num, sf);
    lemma_rotate(cc, q.num, sf);
    lemma_distribute(sf, aa * p.num, cc * q.num);
    lemma_scaled_momentum(aa, cc, ee, gg);
    assert((m1.num * p.num) * (m2.den * q.den) + (m2.num * q.num) * (m1.den * p.den) == sf * (ss
        * ww));
    assert((m1.num * v1.num) * (m2.den * v2.den) + (m2.num * v2.num) * (m1.den * v1.den) == ww);
    // Assemble the cross-multiplied equality.
    assert((sf * (ss * ww)) * (bd * fh) == ww * (bd * (sf * sf))) by {
        lemma_fin(ss, fh, ww, bd);
    }
}

/// Energy conservation: for any well-formed masses and velocities, the
/// elastic-collision law leaves `(1/2) m1 v1^2 + (1/2) m2 v2^2` unchanged,
/// exactly.
pub proof fn lemma_energy_conserved(m1: Q, m2: Q, v1: Q, v2: Q)
    requires
        q_wf(m1),
        q_wf(m2),
        q_wf(v1),
        q_wf(v2),
    ensures
        q_eq(
            total_kinetic_energy(
                m1,
                spec_elastic_velocity(m1, m2, v1, v2),
                m2,
                spec_elastic_velocity(m2, m1, v2, v1),
            ),
            total_kinetic_energy(m1, v1, m2, v2),
        ),
{
    let p = spec_elastic_velocity(m1, m2, v1, v2);
    let q = spec_elastic_velocity(m2, m1, v2, v1);
    let aa = m1.num * m2.den;
    let cc = m2.num * m1.den;
    let ee = v1.num * v2.den;
    let gg = v2.num * v1.den;
    let ss = aa + cc;
    let fh = v1.den * v2.den;
    let sf = ss * fh;
    let bd = m1.den * m2.den;
    let s2 = ss * ss;
    let fh2 = fh * fh;
    let sf2 = sf * sf;
    let w2 = aa * (ee * ee) + cc * (gg * gg);
    lemma_commute(v2.den, v1.den);
    assert(p.den == sf);
    assert(q.den == sf);
    // Each kinetic-energy cross product regroups into mass times square.
    lemma_constant_pairs(m1.num, p.num * p.num, m2.den, q.den * q.den);
    lemma_constant_pairs(m2.num, q.num * q.num, m1.den, p.den * p.den);
    lemma_constant_pairs(m1.den, p.den * p.den, m2.den, q.den * q.den);
    lemma_constant_pairs(m1.num, v1.num * v1.num, m2.den, v2.den * v2.den);
    lemma_constant_pairs(m2.num, v2.num * v2.num, m1.den, v1.den * v1.den);
    lemma_constant_pairs(m1.den, v1.den * v1.den, m2.den, v2.den * v2.den);
    // Velocity squares over their common denominator.
    lemma_square_of_product(v1.num, v2.den);
    lemma_square_of_product(v2.num, v1.den);
    lemma_square_of_product(v1.den, v2.den);
    lemma_square_of_product(ss, fh);
    // The new numerators balance as the scaled energy law says.
    lemma_rotate(aa, p.num, sf);
    lemma_rotate(cc, q.num, sf);
    lemma_distribute(sf, aa * p.num, cc * q.num);
    lemma_scaled_momentum(aa, cc, ee, gg);
    lemma_scaled_reversal(aa, cc, ee, gg);
    lemma_scaled_energy(aa, cc, p.num, q.num, ss, ee, gg);
    lemma_rotate(aa, p.num * p.num, sf2);
    lemma_rotate(cc, q.num * q.num, sf2);
    lemma_distribute(sf2, aa * (p.num * p.num), cc * (q.num * q.num));
    assert((1 * (m1.num * (p.num * p.num))) * (2 * (m2.den * (q.den * q.den))) + (1 * (m2.num
        * (q.num * q.num))) * (2 * (m1.den * (p.den * p.den))) == 2 * (sf2 * (s2 * w2)));
    assert((1 * (m1.num * (v1.num * v1.num))) * (2 * (m2.den * (v2.den * v2.den))) + (1 * (m2.num
        * (v2.num * v2.num))) * (2 * (m1.den * (v1.den * v1.den))) == 2 * w2);
    assert((2 * (m1.den * (p.den * p.den))) * (2 * (m2.den * (q.den * q.den))) == 4 * (bd * (sf2
        * sf2)));
    assert((2 * (m1.den * (v1.den * v1.den))) * (2 * (m2.den * (v2.den * v2.den))) == 4 * (bd
        * fh2));
    // Assemble the cross-multiplied equality.
    lemma_constant_pairs(sf2 * (s2 * w2), 0, bd * fh2, 0);
    lemma_constant_pairs(w2, 0, bd * (sf2 * sf2), 0);
    assert((sf2 * (s2 * w2)) * (bd * fh2) == w2 * (bd * (sf2 * sf2))) by {
        lemma_fin(s2, fh2, w2, bd);
    }
}

/// Wall reflection preserves speed: after the wall detector fires, the light
/// block's speed (the velocity's absolute value) is exactly what it was.
pub proof fn lemma_wall_reflection_preserves_speed(b: BodyView)
    ensures
        q_eq(q_abs(spec_reflect(b).velocity), q_abs(b.velocity)),
{
}

/// Counter monotonicity: one tick never lowers the total, and raises it by
/// at most the two detectors' worth of events.
pub proof fn lemma_counter_monotone(s: SimView)
    ensures
        spec_tick(s).total >= s.total,
        spec_tick(s).total <= s.total + 2,
{
}

/// Idempotent detection: one tick records exactly one event per detector
/// whose contact condition holds after integration — never more.
pub proof fn lemma_one_event_per_detector(s: SimView)
    ensures
        spec_tick(s).total == s.total + spec_event_count(s),
        spec_event_count(s) == (if spec_wall_event(s) { 1int } else { 0int })
            + (if spec_block_event(s) { 1int } else { 0int }),
{
}

/// No collision without contact: when this tick's movement leaves the heavy
/// block strictly beyond the light one and the light block's edge strictly
/// clear of the wall, the tick changes no velocity and leaves the total
/// unchanged.
pub proof fn lemma_no_contact_no_event(s: SimView)
    requires
        !spec_wall_event(s),
        !spec_block_event(s),
    ensures
        spec_tick(s).total == s.total,
        spec_tick(s).light.velocity == s.light.velocity,
        spec_tick(s).heavy.velocity == s.heavy.velocity,
{
}

} // verus!
