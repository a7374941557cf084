//! The charge engine: force law, velocity updates, movement and walls.

use particle_sim::charge::{Charge, Charges};
use particle_sim::fixed::{Fx, RAW_MAX, SCALE};
use particle_sim::vec2::Vec2;

fn v2(x: i64, y: i64) -> Vec2 {
    Vec2 { x: Fx::from_raw(x), y: Fx::from_raw(y) }
}

fn charge(q: i64, px: i64, py: i64, vx: i64, vy: i64) -> Charge {
    Charge::new(Fx::from_raw(q), v2(px, py), v2(vx, vy))
}

#[test]
fn single_charge_radial_law() {
    // A unit charge at the origin, probed at (2, 0): magnitude
    // |q| / |p|^2 == 1/4, direction straight away from the origin.
    let c = charge(SCALE, 0, 0, 0, 0);
    let f = c.calc_e_force(Fx::one(), v2(2 * SCALE, 0));
    assert_eq!(f.x.raw, SCALE / 4);
    assert_eq!(f.y.raw, 0);

    // The same probe for a negative charge points toward the origin.
    let neg = charge(-SCALE, 0, 0, 0, 0);
    let f = neg.calc_e_force(Fx::one(), v2(2 * SCALE, 0));
    assert_eq!(f.x.raw, -SCALE / 4);
    assert_eq!(f.y.raw, 0);

    // Probing on the other side flips the direction.
    let f = c.calc_e_force(Fx::one(), v2(-2 * SCALE, 0));
    assert_eq!(f.x.raw, -SCALE / 4);
    assert_eq!(f.y.raw, 0);
}

#[test]
fn coincident_charges_give_zero_force() {
    let c = charge(SCALE, 5 * SCALE, -3 * SCALE, 0, 0);
    let f = c.calc_e_force(Fx::one(), v2(5 * SCALE, -3 * SCALE));
    assert_eq!(f.x.raw, 0);
    assert_eq!(f.y.raw, 0);
}

#[test]
fn nearly_coincident_charges_fall_into_the_zero_clamp() {
    // Closer than the fixed-point grain, the squared distance rounds to
    // zero and the documented zero-force policy applies instead of a
    // division by zero.
    let c = charge(SCALE, 0, 0, 0, 0);
    let f = c.calc_e_force(Fx::one(), v2(500, 0));
    assert_eq!(f.x.raw, 0);
    assert_eq!(f.y.raw, 0);
}

#[test]
fn extreme_magnitudes_saturate_instead_of_overflowing() {
    // A maximal charge probed very close by: every stage clamps into the
    // raw range, so the force comes out saturated, not wrapped.
    let c = charge(RAW_MAX, 0, 0, 0, 0);
    let f = c.calc_e_force(Fx::one(), v2(1_000, 0));
    assert_eq!(f.x.raw, RAW_MAX);
    assert_eq!(f.y.raw, 0);
}

#[test]
fn two_body_force_symmetry() {
    // Charges A (q=+1 at (0,0)) and B (q=+1 at (1,0)): the two forces are
    // equal in magnitude and opposite in direction, though computed
    // independently.
    let a = charge(SCALE, 0, 0, 0, 0);
    let b = charge(SCALE, SCALE, 0, 0, 0);
    let fab = a.calc_e_force(b.q, b.p);
    let fba = b.calc_e_force(a.q, a.p);
    assert_eq!(fab.x.raw, SCALE);
    assert_eq!(fab.y.raw, 0);
    assert_eq!(fba.x.raw, -fab.x.raw);
    assert_eq!(fba.y.raw, -fab.y.raw);
}

#[test]
fn update_velocities_keeps_positions_and_charge() {
    let mut charges = Charges::new(vec![
        charge(-10 * SCALE, -100 * SCALE, 0, 0, 600_000),
        charge(10 * SCALE, 100 * SCALE, 0, 0, -600_000),
    ]);
    charges.update_velocities(Fx::from_int(10));
    assert_eq!(charges.charges.len(), 2);
    assert_eq!(charges.charges[0].q.raw, -10 * SCALE);
    assert_eq!(charges.charges[0].p.x.raw, -100 * SCALE);
    assert_eq!(charges.charges[1].p.x.raw, 100 * SCALE);
}

#[test]
fn round_trip_scenario_momentum_and_bounds() {
    // The literal charge list [{q:-10, p:(-100,0), v:(0,0.6)},
    // {q:10, p:(100,0), v:(0,-0.6)}], one update_velocities(dt=10) tick:
    // the attracting pair gains equal-and-opposite velocity changes.
    let mut charges = Charges::new(vec![
        charge(-10 * SCALE, -100 * SCALE, 0, 0, 600_000),
        charge(10 * SCALE, 100 * SCALE, 0, 0, -600_000),
    ]);
    let dt = Fx::from_int(10);
    charges.update_velocities(dt);

    let dv0x = charges.charges[0].v.x.raw - 0;
    let dv0y = charges.charges[0].v.y.raw - 600_000;
    let dv1x = charges.charges[1].v.x.raw - 0;
    let dv1y = charges.charges[1].v.y.raw - (-600_000);
    // Momentum is conserved exactly: the deltas cancel.
    assert_eq!(dv0x, -dv1x);
    assert_eq!(dv0y, -dv1y);
    // The opposite charges attract: each is pulled toward the other.
    assert_eq!(dv0x, 25_000); // +0.025 toward B
    assert_eq!(dv1x, -25_000); // -0.025 toward A
    assert_eq!(dv0y, 0);
    assert_eq!(dv1y, 0);

    // After move_charges in a [-150,150] x [-150,150] arena, neither
    // charge leaves the box.
    let b = Fx::from_int(150);
    charges.move_charges(dt, [b.neg(), b, b.neg(), b]);
    for c in &charges.charges {
        assert!(c.p.x.raw >= -150 * SCALE && c.p.x.raw <= 150 * SCALE);
        assert!(c.p.y.raw >= -150 * SCALE && c.p.y.raw <= 150 * SCALE);
    }
    assert_eq!(charges.charges[0].p.x.raw, -99_750_000); // -99.75
    assert_eq!(charges.charges[0].p.y.raw, 6 * SCALE);
    assert_eq!(charges.charges[1].p.x.raw, 99_750_000);
    assert_eq!(charges.charges[1].p.y.raw, -6 * SCALE);
}

#[test]
fn reflection_at_upper_x_wall() {
    // A charge at (max_x - 0.5) moving +1/tick for dt=10 overshoots the
    // wall by 9.5 and comes back mirrored, velocity inverted.
    let mut charges = Charges::new(vec![charge(SCALE, 149_500_000, 0, SCALE, 0)]);
    let b = Fx::from_int(150);
    charges.move_charges(Fx::from_int(10), [b.neg(), b, b.neg(), b]);
    let c = &charges.charges[0];
    assert_eq!(c.p.x.raw, 140_500_000); // 150 - 9.5
    assert_eq!(c.v.x.raw, -SCALE);
    assert_eq!(c.p.y.raw, 0);
    assert_eq!(c.v.y.raw, 0);
    assert!(c.p.x.raw >= -150 * SCALE && c.p.x.raw <= 150 * SCALE);
}

#[test]
fn reflection_at_lower_y_wall() {
    let mut charges = Charges::new(vec![charge(SCALE, 0, -149 * SCALE, 0, -2 * SCALE)]);
    let b = Fx::from_int(150);
    charges.move_charges(Fx::from_int(1), [b.neg(), b, b.neg(), b]);
    let c = &charges.charges[0];
    // p1.y == -151; mirrored across -150 to -149; v.y inverted.
    assert_eq!(c.p.y.raw, -149 * SCALE);
    assert_eq!(c.v.y.raw, 2 * SCALE);
}

#[test]
fn movement_without_wall_contact_is_linear() {
    let mut charges = Charges::new(vec![charge(SCALE, 0, 0, 3 * SCALE, -1 * SCALE)]);
    let b = Fx::from_int(150);
    charges.move_charges(Fx::from_int(2), [b.neg(), b, b.neg(), b]);
    let c = &charges.charges[0];
    assert_eq!(c.p.x.raw, 6 * SCALE);
    assert_eq!(c.p.y.raw, -2 * SCALE);
    assert_eq!(c.v.x.raw, 3 * SCALE);
    assert_eq!(c.v.y.raw, -1 * SCALE);
}
