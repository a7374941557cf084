//! The general laws of the engine, stated and proved once over the same
//! spec functions that the executable contracts use.

use vstd::prelude::*;
use crate::charge::{Charge, e_force, field_sum, vel_sum, moved};
use crate::fixed::{SCALE, sat64, fx_sub_s, fx_neg_s, fx_mul_s, fx_div_s, fx_sqrt_s,
    lemma_sat64_odd, lemma_fx_mul_comm, lemma_fx_mul_neg_left, lemma_fx_div_neg_left,
    lemma_fx_square_neg, lemma_fx_mul_sign, lemma_fx_div_sign, lemma_fx_mul_by_one,
    lemma_fx_sqrt_pos};
use crate::vec2::{Vec2, add2, sub2, neg2, scale2, div2, len_sq2, lemma_len_sq2_nonneg};

verus! {

/// Zero-charge field: an empty charge set superposes the zero vector at
/// every sample point.
pub proof fn lemma_zero_charge_field(cs: Seq<Charge>, p: (int, int))
    requires
        cs.len() == 0,
    ensures
        field_sum(cs, p) == (0int, 0int),
{
}

/// Newton's third law, exact in fixed point: the force a charge computes
/// against another is the exact negation of the force the other computes
/// against it, even though each is evaluated independently.
pub proof fn lemma_force_antisymmetric(a: Charge, b: Charge)
    ensures
        e_force(b.q@, b.p@, a.q@, a.p@) == neg2(e_force(a.q@, a.p@, b.q@, b.p@)),
{
    let dir = sub2(b.p@, a.p@);
    let rdir = sub2(a.p@, b.p@);
    lemma_sat64_odd(b.p@.0 - a.p@.0);
    lemma_sat64_odd(b.p@.1 - a.p@.1);
    assert(rdir.0 == -dir.0 && rdir.1 == -dir.1);
    lemma_fx_square_neg(dir.0);
    lemma_fx_square_neg(dir.1);
    let d2 = len_sq2(dir);
    assert(len_sq2(rdir) == d2);
    if d2 != 0 {
        lemma_len_sq2_nonneg(dir);
        lemma_fx_sqrt_pos(d2);
        let len = fx_sqrt_s(d2);
        lemma_fx_div_neg_left(dir.0, len);
        lemma_fx_div_neg_left(dir.1, len);
        lemma_fx_mul_comm(b.q@, a.q@);
        let f = fx_div_s(fx_mul_s(a.q@, b.q@), d2);
        let n = div2(dir, len);
        lemma_fx_mul_neg_left(n.0, f);
        lemma_fx_mul_neg_left(n.1, f);
        lemma_sat64_odd(-fx_mul_s(n.0, f));
        lemma_sat64_odd(-fx_mul_s(n.1, f));
    }
}

/// Sign alignment of one force component: the probe-side component of the
/// force from a charge at the origin never points against the probe's own
/// coordinate when the charge is positive, and never with it when the
/// charge is negative.
proof fn lemma_radial_component(pc: int, q: int, len: int, d2: int)
    requires
        len > 0,
        d2 > 0,
    ensures
        q > 0 ==> fx_mul_s(fx_div_s(sat64(pc), len), fx_div_s(fx_mul_s(q, SCALE as int), d2)) * pc
            >= 0,
        q < 0 ==> fx_mul_s(fx_div_s(sat64(pc), len), fx_div_s(fx_mul_s(q, SCALE as int), d2)) * pc
            <= 0,
{
    lemma_fx_mul_by_one(q);
    let fs = fx_div_s(fx_mul_s(q, SCALE as int), d2);
    let n = fx_div_s(sat64(pc), len);
    lemma_fx_div_sign(sat64(pc), len);
    lemma_fx_div_sign(fx_mul_s(q, SCALE as int), d2);
    lemma_fx_mul_sign(n, fs);
    let comp = fx_mul_s(n, fs);
    if q > 0 {
        if pc >= 0 {
            assert(comp >= 0);
            assert(comp * pc >= 0) by (nonlinear_arith)
                requires comp >= 0, pc >= 0,
            {}
        } else {
            assert(comp <= 0);
            assert(comp * pc >= 0) by (nonlinear_arith)
                requires comp <= 0, pc <= 0,
            {}
        }
    }
    if q < 0 {
        if pc >= 0 {
            assert(comp <= 0);
            assert(comp * pc <= 0) by (nonlinear_arith)
                requires comp <= 0, pc >= 0,
            {}
        } else {
            assert(comp >= 0);
            assert(comp * pc <= 0) by (nonlinear_arith)
                requires comp >= 0, pc <= 0,
            {}
        }
    }
}

/// Single-charge radial law, the direction half: the field a lone charge
/// at the origin superposes at a point has no component against the
/// point's own coordinates when the charge is positive (it points away
/// from the origin), and none with them when the charge is negative (it
/// points toward the origin).
pub proof fn lemma_single_charge_radial(c: Charge, p: Vec2)
    requires
        c.p@ == (0int, 0int),
    ensures
        c.q@ > 0 ==> field_sum(seq![c], p@).0 * p@.0 >= 0
            && field_sum(seq![c], p@).1 * p@.1 >= 0,
        c.q@ < 0 ==> field_sum(seq![c], p@).0 * p@.0 <= 0
            && field_sum(seq![c], p@).1 * p@.1 <= 0,
{
    let cs = seq![c];
    assert(cs.drop_last() =~= Seq::<Charge>::empty());
    assert(field_sum(cs.drop_last(), p@) == (0int, 0int));
    assert(cs.last() == c);
    let e = e_force(c.q@, c.p@, SCALE as int, p@);
    let dir = sub2(p@, (0int, 0int));
    assert(dir.0 == sat64(p@.0) && dir.1 == sat64(p@.1));
    let d2 = len_sq2(dir);
    lemma_len_sq2_nonneg(dir);
    if d2 == 0 {
        assert(e == (0int, 0int));
        assert(e.0 * p@.0 == 0 && e.1 * p@.1 == 0) by (nonlinear_arith)
            requires e.0 == 0, e.1 == 0,
        {}
    } else {
        lemma_fx_sqrt_pos(d2);
        let len = fx_sqrt_s(d2);
        lemma_radial_component(p@.0, c.q@, len, d2);
        lemma_radial_component(p@.1, c.q@, len, d2);
    }
    assert(field_sum(cs, p@).0 == sat64(e.0) && field_sum(cs, p@).1 == sat64(e.1));
    assert(sat64(e.0) == e.0 && sat64(e.1) == e.1);
}

/// Reflection at the upper x wall: a charge that one tick of motion
/// carries past `max_x` ends the tick mirrored back across that wall,
/// inside `[min_x, max_x]`, with its x velocity inverted.
pub proof fn lemma_reflect_at_upper_x(c: Charge, dt: int, min_x: int, max_x: int, min_y: int,
    max_y: int)
    requires
        -(crate::fixed::RAW_MAX as int) <= min_x <= max_x <= crate::fixed::RAW_MAX as int,
        add2(c.p@, scale2(c.v@, dt)).0 > max_x,
        fx_sub_s(max_x, fx_sub_s(add2(c.p@, scale2(c.v@, dt)).0, max_x)) >= min_x,
    ensures
        moved(c, dt, min_x, max_x, min_y, max_y).0.0
            == fx_sub_s(max_x, fx_sub_s(add2(c.p@, scale2(c.v@, dt)).0, max_x)),
        min_x <= moved(c, dt, min_x, max_x, min_y, max_y).0.0 <= max_x,
        moved(c, dt, min_x, max_x, min_y, max_y).1.0 == fx_neg_s(c.v@.0),
{
    let p1 = add2(c.p@, scale2(c.v@, dt));
    let over = fx_sub_s(p1.0, max_x);
    assert(over >= 1);
}

/// Two-body momentum conservation, exact in fixed point: with exactly two
/// charges, one velocity update changes the two velocities by exactly
/// opposite amounts.
pub proof fn lemma_two_body_momentum(cs: Seq<Charge>, dt: int)
    requires
        cs.len() == 2,
    ensures
        scale2(vel_sum(cs, 0, 2), dt) == neg2(scale2(vel_sum(cs, 1, 2), dt)),
{
    let a = cs[0];
    let b = cs[1];
    let e01 = e_force(a.q@, a.p@, b.q@, b.p@);
    let e10 = e_force(b.q@, b.p@, a.q@, a.p@);
    lemma_force_antisymmetric(a, b);
    assert(vel_sum(cs, 0, 0) == (0int, 0int));
    assert(vel_sum(cs, 1, 0) == (0int, 0int));
    assert(vel_sum(cs, 0, 1) == (0int, 0int));
    assert(vel_sum(cs, 1, 1) == sub2((0int, 0int), e10));
    assert(vel_sum(cs, 0, 2) == sub2((0int, 0int), e01));
    assert(vel_sum(cs, 1, 2) == vel_sum(cs, 1, 1));
    let s0 = vel_sum(cs, 0, 2);
    let s1 = vel_sum(cs, 1, 2);
    lemma_sat64_odd(e01.0);
    lemma_sat64_odd(e01.1);
    lemma_sat64_odd(e10.0);
    lemma_sat64_odd(e10.1);
    assert(s0.0 == -s1.0 && s0.1 == -s1.1);
    lemma_fx_mul_neg_left(s1.0, dt);
    lemma_fx_mul_neg_left(s1.1, dt);
    lemma_sat64_odd(fx_mul_s(s1.0, dt));
    lemma_sat64_odd(fx_mul_s(s1.1, dt));
}

} // verus!
