//! The simulation driver: one tick is field sampling, then the
//! presentation handoff, then charge dynamics, in that fixed order — the
//! displayed field always reflects the positions before this tick's
//! movement.  The stages are gated by plain boolean flags.

use vstd::prelude::*;
use crate::charge::{Charges, moved, vel_updated};
use crate::fixed::Fx;
use crate::vector_field::VectorField;

verus! {

/// Which stages of the tick run.
pub struct SystemStatus {
    pub update_field: bool,
    pub move_charges: bool,
}

impl Default for SystemStatus {
    /// The field is sampled from the start; the charges stand still until
    /// the simulation is switched on.
    fn default() -> (r: SystemStatus)
        ensures
            r.update_field == true,
            r.move_charges == false,
    {
        SystemStatus { update_field: true, move_charges: false }
    }
}

/// The field stage runs only when it is switched on and both resources
/// exist.
pub fn if_update_field(status: &SystemStatus, has_field: bool, has_charges: bool) -> (r: bool)
    ensures
        r == (status.update_field && has_field && has_charges),
{
    status.update_field && has_field && has_charges
}

/// The movement stage runs only when it is switched on and the charges
/// exist.
pub fn if_move_charges(status: &SystemStatus, has_charges: bool) -> (r: bool)
    ensures
        r == (status.move_charges && has_charges),
{
    status.move_charges && has_charges
}

/// Field stage: resample the grid from the current charges.
pub fn update_field(vector_field: &mut VectorField, charges: &Charges)
    requires
        old(vector_field).grid_wf(),
    ensures
        final(vector_field).size@ == old(vector_field).size@,
        final(vector_field).resolution == old(vector_field).resolution,
        final(vector_field).coords@ == old(vector_field).coords@,
        final(vector_field).grid_wf(),
        forall|y: int, x: int|
            0 <= y < old(vector_field).spec_height() && 0 <= x < old(vector_field).spec_width()
                ==> (#[trigger] final(vector_field).field@[y]@[x])@
                    == crate::charge::field_sum(charges.charges@, old(vector_field).coords@[y]@[x]@),
{
    charges.apply_to_field(vector_field);
}

/// Movement stage: advance velocities, then positions, the arena walls
/// standing at the world positions of the grid's corner samples.
pub fn move_charges(charges: &mut Charges, vector_field: &VectorField, time_scale: Fx)
    requires
        vector_field.grid_wf(),
        vector_field.spec_width() >= 1,
        vector_field.spec_height() >= 1,
    ensures
        final(charges).charges@.len() == old(charges).charges@.len(),
        forall|i: int| 0 <= i < old(charges).charges@.len()
            ==> {
                let cs = old(charges).charges@;
                let bl = vector_field.coords@[0]@[0]@;
                let tr = vector_field.coords@[vector_field.spec_height() - 1]@[
                    vector_field.spec_width() - 1]@;
                let mid = vel_updated(cs, i, time_scale@);
                let m = moved(mid, time_scale@, bl.0, tr.0, bl.1, tr.1);
                (#[trigger] final(charges).charges@[i]).q == cs[i].q
                    && final(charges).charges@[i].p@ == m.0
                    && final(charges).charges@[i].v@ == m.1
            },
{
    let shape = vector_field.get_shape();
    let width = shape[0];
    let height = shape[1];
    let bl = vector_field.coords[0][0];
    let tr = vector_field.coords[height - 1][width - 1];

    let ghost cs = charges.charges@;
    charges.update_velocities(time_scale);
    proof {
        assert forall|i: int| 0 <= i < cs.len()
            implies #[trigger] charges.charges@[i] == vel_updated(cs, i, time_scale@) by {
            let u = vel_updated(cs, i, time_scale@);
            assert(charges.charges@[i].v@ == u.v@);
            assert(charges.charges@[i].v.x.raw == u.v.x.raw);
            assert(charges.charges@[i].v.y.raw == u.v.y.raw);
        }
        assert(charges.charges@ =~= Seq::new(cs.len(), |i: int| vel_updated(cs, i, time_scale@)));
    }
    charges.move_charges(time_scale, [bl.x, tr.x, bl.y, tr.y]);
}

/// One whole tick: sample the field from the charges as they stand, then
/// advance the charges — never the other way around, so that what the
/// presentation layer reads out of the grid is the field of the positions
/// this tick started from.
pub fn tick(status: &SystemStatus, vector_field: &mut VectorField, charges: &mut Charges,
    time_scale: Fx)
    requires
        old(vector_field).grid_wf(),
        old(vector_field).spec_width() >= 1,
        old(vector_field).spec_height() >= 1,
    ensures
        final(vector_field).size@ == old(vector_field).size@,
        final(vector_field).resolution == old(vector_field).resolution,
        final(vector_field).coords@ == old(vector_field).coords@,
        final(vector_field).grid_wf(),
        status.update_field ==> forall|y: int, x: int|
            0 <= y < old(vector_field).spec_height() && 0 <= x < old(vector_field).spec_width()
                ==> (#[trigger] final(vector_field).field@[y]@[x])@
                    == crate::charge::field_sum(old(charges).charges@,
                        old(vector_field).coords@[y]@[x]@),
        !status.update_field ==> final(vector_field).field@ == old(vector_field).field@,
        !status.move_charges ==> final(charges).charges@ == old(charges).charges@,
        status.move_charges ==> final(charges).charges@.len() == old(charges).charges@.len(),
        status.move_charges ==> forall|i: int| 0 <= i < old(charges).charges@.len()
            ==> {
                let cs = old(charges).charges@;
                let bl = old(vector_field).coords@[0]@[0]@;
                let tr = old(vector_field).coords@[old(vector_field).spec_height() - 1]@[
                    old(vector_field).spec_width() - 1]@;
                let mid = vel_updated(cs, i, time_scale@);
                let m = moved(mid, time_scale@, bl.0, tr.0, bl.1, tr.1);
                (#[trigger] final(charges).charges@[i]).q == cs[i].q
                    && final(charges).charges@[i].p@ == m.0
                    && final(charges).charges@[i].v@ == m.1
            },
{
    if status.update_field {
        update_field(vector_field, charges);
    }
    if status.move_charges {
        move_charges(charges, vector_field, time_scale);
    }
}

} // verus!
