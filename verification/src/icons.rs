//! Index-based icon references: every on-screen charge icon and velocity
//! arrow tracks its charge by the charge's position in the list, and the
//! editor finds the icon under the mouse by a radius test.

use vstd::prelude::*;
use crate::charge::Charges;
use crate::fixed::{Fx, fx_mul_s};
use crate::vec2::{Vec2, scale2, sub2, len_sq2};

verus! {

/// Handle of the icon that stands for the charge at index `id`.
#[derive(Clone, Copy, PartialEq, Eq, Structural, Debug)]
pub struct ChargeIcon {
    pub id: usize,
}

/// Handle of the velocity arrow that belongs to the charge at index `id`.
#[derive(Clone, Copy, PartialEq, Eq, Structural, Debug)]
pub struct ArrowIcon {
    pub id: usize,
}

/// Whether the point lies on the icon: the offset from icon to point is
/// no longer than the icon's radius (compared through squared lengths).
pub open spec fn icon_hit(icon: (int, int), point: (int, int), radius: int) -> bool {
    len_sq2(sub2(point, icon)) <= fx_mul_s(radius, radius)
}

/// The on-screen position of every charge's icon, in charge order: the
/// charge's world position scaled up to screen coordinates.
pub fn icon_positions(charges: &Charges, scale: Fx) -> (r: Vec<Vec2>)
    ensures
        r@.len() == charges.charges@.len(),
        forall|i: int| 0 <= i < charges.charges@.len()
            ==> (#[trigger] r@[i])@ == scale2(charges.charges@[i].p@, scale@),
{
    let mut positions: Vec<Vec2> = Vec::new();
    let n = charges.charges.len();
    for i in 0..n
        invariant
            n == charges.charges@.len(),
            positions@.len() == i,
            forall|j: int| 0 <= j < i
                ==> (#[trigger] positions@[j])@ == scale2(charges.charges@[j].p@, scale@),
    {
        positions.push(charges.charges[i].p.scale(scale));
    }
    positions
}

/// The first icon lying under the point, in index order; `None` when the
/// point touches none of them.
pub fn find_icon_at(positions: &Vec<Vec2>, point: Vec2, radius: Fx) -> (r: Option<usize>)
    ensures
        match r {
            Some(i) => i < positions@.len()
                && icon_hit(positions@[i as int]@, point@, radius@)
                && forall|j: int| 0 <= j < i ==> !icon_hit((#[trigger] positions@[j])@, point@, radius@),
            None => forall|j: int| 0 <= j < positions@.len()
                ==> !icon_hit((#[trigger] positions@[j])@, point@, radius@),
        },
{
    let r2 = radius.mul(radius);
    let n = positions.len();
    for i in 0..n
        invariant
            n == positions@.len(),
            r2@ == fx_mul_s(radius@, radius@),
            forall|j: int| 0 <= j < i ==> !icon_hit((#[trigger] positions@[j])@, point@, radius@),
    {
        let d2 = point.sub(positions[i]).length_squared();
        if d2.raw <= r2.raw {
            return Some(i);
        }
    }
    None
}

} // verus!
