//! Point charges and the N-body engine: pairwise Coulomb-like forces,
//! velocity and position integration, and reflecting arena walls.

use vstd::prelude::*;
use crate::fixed::{Fx, SCALE, fx_add_s, fx_sub_s, fx_neg_s, fx_mul_s, fx_div_s, fx_sqrt_s,
    lemma_fx_sqrt_pos};
use crate::vec2::{Vec2, add2, sub2, scale2, div2, len_sq2, lemma_len_sq2_nonneg};
use crate::vector_field::VectorField;

verus! {

/// A point charge: signed magnitude, world position, world velocity.
#[derive(Clone, Copy, PartialEq, Eq, Structural, Debug)]
pub struct Charge {
    pub q: Fx,
    pub p: Vec2,
    pub v: Vec2,
}

/// The signed Coulomb-like force a charge `(qa, pa)` computes against a
/// body `(qb, pb)`: direction from `pa` toward `pb`, magnitude
/// `qa * qb / dist²`, so like signs give a vector pointing away from `pa`.
/// Two coincident points would divide by zero; this library fixes the
/// policy that the force is then zero.
pub open spec fn e_force(qa: int, pa: (int, int), qb: int, pb: (int, int)) -> (int, int) {
    let dir = sub2(pb, pa);
    let d2 = len_sq2(dir);
    if d2 == 0 {
        (0int, 0int)
    } else {
        let len = fx_sqrt_s(d2);
        let norm_dir = div2(dir, len);
        let f = fx_div_s(fx_mul_s(qa, qb), d2);
        scale2(norm_dir, f)
    }
}

/// The field that the first `cs.len()` charges superpose at point `p`,
/// probed with the unit charge: the running sum the sampling loop builds,
/// in its order.
pub open spec fn field_sum(cs: Seq<Charge>, p: (int, int)) -> (int, int)
    decreases cs.len(),
{
    if cs.len() == 0 {
        (0int, 0int)
    } else {
        add2(field_sum(cs.drop_last(), p), e_force(cs.last().q@, cs.last().p@, SCALE as int, p))
    }
}

/// The velocity change accumulated for charge `i` against the first `k`
/// charges: the negative running sum of the forces it computes against
/// every other charge, in index order.
pub open spec fn vel_sum(cs: Seq<Charge>, i: int, k: int) -> (int, int)
    decreases k,
{
    if k <= 0 {
        (0int, 0int)
    } else {
        let prev = vel_sum(cs, i, k - 1);
        if k - 1 == i {
            prev
        } else {
            sub2(prev, e_force(cs[i].q@, cs[i].p@, cs[k - 1].q@, cs[k - 1].p@))
        }
    }
}

/// One axis of the reflecting wall: a position below the lower wall is
/// mirrored back across it, then the result above the upper wall is
/// mirrored back across that one; each mirroring inverts the velocity
/// component, and both may fire in the same tick.
pub open spec fn reflect_axis(p0: int, v0: int, min: int, max: int) -> (int, int) {
    let low = if p0 < min {
        (fx_add_s(min, fx_sub_s(min, p0)), fx_neg_s(v0))
    } else {
        (p0, v0)
    };
    if low.0 > max {
        (fx_sub_s(max, fx_sub_s(low.0, max)), fx_neg_s(low.1))
    } else {
        low
    }
}

/// Position and velocity of one charge after a tick of movement:
/// `p + v*dt`, then each axis reflected independently.
pub open spec fn moved(c: Charge, dt: int, min_x: int, max_x: int, min_y: int, max_y: int)
    -> ((int, int), (int, int))
{
    let p1 = add2(c.p@, scale2(c.v@, dt));
    let rx = reflect_axis(p1.0, c.v@.0, min_x, max_x);
    let ry = reflect_axis(p1.1, c.v@.1, min_y, max_y);
    ((rx.0, ry.0), (rx.1, ry.1))
}

/// The same charge with its velocity replaced by the given raw pair,
/// which must lie in the raw range for the views to round-trip.
pub open spec fn with_vel(c: Charge, v: (int, int)) -> Charge {
    Charge { q: c.q, p: c.p, v: (Vec2 { x: Fx { raw: v.0 as i64 }, y: Fx { raw: v.1 as i64 } }) }
}

/// Charge `i` of the list after one velocity update of the whole list.
pub open spec fn vel_updated(cs: Seq<Charge>, i: int, dt: int) -> Charge {
    with_vel(cs[i], add2(cs[i].v@, scale2(vel_sum(cs, i, cs.len() as int), dt)))
}

impl Charge {
    /// Build a charge from magnitude, position and velocity.
    pub fn new(q: Fx, p: Vec2, v: Vec2) -> (r: Charge)
        ensures
            r.q == q,
            r.p == p,
            r.v == v,
    {
        Charge { q, p, v }
    }

    /// The signed Coulomb-like force against a body of magnitude `b_q` at
    /// `b_p`; zero when the two points coincide.
    pub fn calc_e_force(&self, b_q: Fx, b_p: Vec2) -> (r: Vec2)
        ensures
            r@ == e_force(self.q@, self.p@, b_q@, b_p@),
    {
        let dir = b_p.sub(self.p);
        let dist_squared = dir.length_squared();
        if dist_squared.raw == 0 {
            return Vec2::zero();
        }
        proof {
            lemma_fx_sqrt_pos(dist_squared@);
        }
        let len = dist_squared.sqrt();
        let norm_dir = dir.div_scalar(len);
        let f = self.q.mul(b_q).div(dist_squared);
        norm_dir.scale(f)
    }
}

/// The ordered collection of charges: order is the addressing scheme that
/// outside collaborators use, so every operation keeps each charge at its
/// index.
pub struct Charges {
    pub charges: Vec<Charge>,
}

impl Charges {
    /// Wrap an ordered charge list.  An empty list is a valid, fully
    /// functional state.
    pub fn new(charges: Vec<Charge>) -> (r: Charges)
        ensures
            r.charges@ == charges@,
    {
        Charges { charges }
    }

    /// Recompute every field sample of the grid from the current charges:
    /// each cell becomes the superposed force on a unit probe at the
    /// cell's world position.  The grid is a read-only observer of the
    /// charges; its layout (`coords`) does not change.
    pub fn apply_to_field(&self, vector_field: &mut VectorField)
        requires
            old(vector_field).grid_wf(),
        ensures
            final(vector_field).size@ == old(vector_field).size@,
            final(vector_field).resolution == old(vector_field).resolution,
            final(vector_field).coords@ == old(vector_field).coords@,
            final(vector_field).grid_wf(),
            forall|y: int, x: int|
                0 <= y < old(vector_field).spec_height() && 0 <= x < old(vector_field).spec_width()
                    ==> (#[trigger] final(vector_field).field@[y]@[x])@
                        == field_sum(self.charges@, old(vector_field).coords@[y]@[x]@),
    {
        let shape = vector_field.get_shape();
        let width = shape[0];
        let height = shape[1];

        let mut field: Vec<Vec<Vec2>> = Vec::new();
        for y in 0..height
            invariant
                *vector_field == *old(vector_field),
                vector_field.grid_wf(),
                width == vector_field.spec_width(),
                height == vector_field.spec_height(),
                field@.len() == y,
                forall|yy: int| 0 <= yy < y ==> (#[trigger] field@[yy])@.len() == width,
                forall|yy: int, xx: int| 0 <= yy < y && 0 <= xx < width
                    ==> (#[trigger] field@[yy]@[xx])@
                        == field_sum(self.charges@, vector_field.coords@[yy]@[xx]@),
        {
            let coord_row = &vector_field.coords[y];
            let mut row: Vec<Vec2> = Vec::new();
            for x in 0..width
                invariant
                    *vector_field == *old(vector_field),
                    vector_field.grid_wf(),
                    width == vector_field.spec_width(),
                    height == vector_field.spec_height(),
                    y < height,
                    coord_row@ == vector_field.coords@[y as int]@,
                    row@.len() == x,
                    forall|xx: int| 0 <= xx < x
                        ==> (#[trigger] row@[xx])@
                            == field_sum(self.charges@, vector_field.coords@[y as int]@[xx]@),
            {
                let coord = coord_row[x];
                let mut total = Vec2::zero();
                let n = self.charges.len();
                for ci in 0..n
                    invariant
                        n == self.charges@.len(),
                        coord@ == vector_field.coords@[y as int]@[x as int]@,
                        y < height,
                        x < width,
                        vector_field.grid_wf(),
                        width == vector_field.spec_width(),
                        height == vector_field.spec_height(),
                        total@ == field_sum(self.charges@.take(ci as int), coord@),
                {
                    let c = self.charges[ci];
                    total = total.add(c.calc_e_force(Fx::one(), coord));
                    proof {
                        let cs = self.charges@;
                        assert(cs.take(ci as int + 1).drop_last() =~= cs.take(ci as int));
                        assert(cs.take(ci as int + 1).last() == cs[ci as int]);
                    }
                }
                proof {
                    assert(self.charges@.take(n as int) =~= self.charges@);
                }
                row.push(total);
            }
            field.push(row);
        }
        vector_field.field = field;
    }

    /// Advance every velocity by one tick: each charge accumulates the
    /// negative sum of the forces it computes against every other charge,
    /// all read from the same before-this-tick snapshot, and gains that
    /// sum scaled by `dt`.  Magnitudes, positions and order are untouched.
    pub fn update_velocities(&mut self, dt: Fx)
        ensures
            final(self).charges@.len() == old(self).charges@.len(),
            forall|i: int| 0 <= i < old(self).charges@.len()
                ==> (#[trigger] final(self).charges@[i]).q == old(self).charges@[i].q
                    && final(self).charges@[i].p == old(self).charges@[i].p
                    && final(self).charges@[i].v@
                        == add2(old(self).charges@[i].v@,
                            scale2(vel_sum(old(self).charges@, i, old(self).charges@.len() as int), dt@)),
    {
        let num_charges = self.charges.len();
        let mut updated: Vec<Charge> = Vec::new();
        for cur_i in 0..num_charges
            invariant
                num_charges == self.charges@.len(),
                updated@.len() == cur_i,
                forall|i: int| 0 <= i < cur_i
                    ==> (#[trigger] updated@[i]).q == self.charges@[i].q
                        && updated@[i].p == self.charges@[i].p
                        && updated@[i].v@
                            == add2(self.charges@[i].v@,
                                scale2(vel_sum(self.charges@, i, num_charges as int), dt@)),
        {
            let cur_charge = self.charges[cur_i];
            let mut vel = Vec2::zero();
            for comp_i in 0..num_charges
                invariant
                    num_charges == self.charges@.len(),
                    cur_i < num_charges,
                    cur_charge == self.charges@[cur_i as int],
                    vel@ == vel_sum(self.charges@, cur_i as int, comp_i as int),
            {
                if comp_i != cur_i {
                    let compare_charge = self.charges[comp_i];
                    vel = vel.sub(cur_charge.calc_e_force(compare_charge.q, compare_charge.p));
                }
            }
            updated.push(Charge {
                q: cur_charge.q,
                p: cur_charge.p,
                v: cur_charge.v.add(vel.scale(dt)),
            });
        }
        self.charges = updated;
    }

    /// Move every charge by `v * dt`, then mirror it back across any arena
    /// wall it crossed — `bounds` is `[min_x, max_x, min_y, max_y]` — and
    /// invert the corresponding velocity component.  The axes are handled
    /// independently; both walls of one axis may fire in the same tick.
    pub fn move_charges(&mut self, dt: Fx, bounds: [Fx; 4])
        ensures
            final(self).charges@.len() == old(self).charges@.len(),
            forall|i: int| 0 <= i < old(self).charges@.len()
                ==> (#[trigger] final(self).charges@[i]).q == old(self).charges@[i].q
                    && final(self).charges@[i].p@
                        == moved(old(self).charges@[i], dt@,
                            bounds@[0]@, bounds@[1]@, bounds@[2]@, bounds@[3]@).0
                    && final(self).charges@[i].v@
                        == moved(old(self).charges@[i], dt@,
                            bounds@[0]@, bounds@[1]@, bounds@[2]@, bounds@[3]@).1,
    {
        let min_x = bounds[0];
        let max_x = bounds[1];
        let min_y = bounds[2];
        let max_y = bounds[3];

        let n = self.charges.len();
        let mut updated: Vec<Charge> = Vec::new();
        for i in 0..n
            invariant
                n == self.charges@.len(),
                min_x == bounds@[0] && max_x == bounds@[1] && min_y == bounds@[2] && max_y == bounds@[3],
                updated@.len() == i,
                forall|j: int| 0 <= j < i
                    ==> (#[trigger] updated@[j]).q == self.charges@[j].q
                        && updated@[j].p@
                            == moved(self.charges@[j], dt@,
                                bounds@[0]@, bounds@[1]@, bounds@[2]@, bounds@[3]@).0
                        && updated@[j].v@
                            == moved(self.charges@[j], dt@,
                                bounds@[0]@, bounds@[1]@, bounds@[2]@, bounds@[3]@).1,
        {
            let c = self.charges[i];
            let mut p = c.p.add(c.v.scale(dt));
            let mut v = c.v;

            if p.x.raw < min_x.raw {
                p.x = min_x.add(min_x.sub(p.x));
                v.x = v.x.neg();
            }
            if p.x.raw > max_x.raw {
                p.x = max_x.sub(p.x.sub(max_x));
                v.x = v.x.neg();
            }
            if p.y.raw < min_y.raw {
                p.y = min_y.add(min_y.sub(p.y));
                v.y = v.y.neg();
            }
            if p.y.raw > max_y.raw {
                p.y = max_y.sub(p.y.sub(max_y));
                v.y = v.y.neg();
            }
            updated.push(Charge { q: c.q, p, v });
        }
        self.charges = updated;
    }
}

} // verus!
