//! The tick driver: stage gating and the field-then-movement order.

use particle_sim::charge::{Charge, Charges};
use particle_sim::fixed::{Fx, SCALE};
use particle_sim::setting::Field;
use particle_sim::system::{if_move_charges, if_update_field, move_charges, tick, update_field,
    SystemStatus};
use particle_sim::vec2::Vec2;
use particle_sim::vector_field::VectorField;

fn v2(x: i64, y: i64) -> Vec2 {
    Vec2 { x: Fx::from_raw(x), y: Fx::from_raw(y) }
}

fn grid_2x2() -> VectorField {
    let mut vf = VectorField::new([2, 2], 1);
    vf.init(Fx::one());
    vf
}

#[test]
fn default_status_samples_but_does_not_move() {
    let status = SystemStatus::default();
    assert!(status.update_field);
    assert!(!status.move_charges);
    assert!(if_update_field(&status, true, true));
    assert!(!if_update_field(&status, false, true));
    assert!(!if_move_charges(&status, true));
}

#[test]
fn update_field_stage_rewrites_field_only() {
    let mut vf = grid_2x2();
    let before_coords = vf.coords.clone();
    let charges = Charges::new(vec![]);
    update_field(&mut vf, &charges);
    assert_eq!(vf.coords, before_coords);
    assert_eq!(vf.field[0][0], v2(0, 0));
}

#[test]
fn move_stage_uses_grid_corners_as_walls() {
    // 2x2 grid at spacing 1: corners (-1,-1) and (0,0) bound the arena.
    let vf = grid_2x2();
    // One still charge just inside the upper x wall, drifting right.
    let mut charges = Charges::new(vec![Charge::new(
        Fx::one(),
        v2(-100_000, -500_000),
        v2(300_000, 0),
    )]);
    move_charges(&mut charges, &vf, Fx::one());
    let c = &charges.charges[0];
    // p1.x == 0.2 crosses the wall at 0 and mirrors back to -0.2.
    assert_eq!(c.p.x.raw, -200_000);
    assert_eq!(c.v.x.raw, -300_000);
}

#[test]
fn tick_samples_field_before_moving_charges() {
    let mut vf = grid_2x2();
    // A unit charge two units right of world (0,0), about to move away.
    let mut charges = Charges::new(vec![Charge::new(
        Fx::one(),
        v2(2 * SCALE, 0),
        v2(-10 * SCALE, 0),
    )]);
    let status = SystemStatus { update_field: true, move_charges: true };
    tick(&status, &mut vf, &mut charges, Fx::from_raw(100_000));
    // The field shows the position the tick started from, not the moved one.
    assert_eq!(vf.field[1][1], v2(-SCALE / 4, 0));
    assert_ne!(charges.charges[0].p, v2(2 * SCALE, 0));
}

#[test]
fn tick_respects_stage_flags() {
    let mut vf = grid_2x2();
    let seeded = vf.field.clone();
    let mut charges = Charges::new(vec![Charge::new(Fx::one(), v2(0, 0), v2(SCALE, 0))]);
    let status = SystemStatus { update_field: false, move_charges: false };
    tick(&status, &mut vf, &mut charges, Fx::one());
    assert_eq!(vf.field, seeded);
    assert_eq!(charges.charges[0].p, v2(0, 0));
}

#[test]
fn field_config_validity() {
    assert!(Field { size: [30, 20], resolution: 3 }.valid());
    assert!(!Field { size: [0, 20], resolution: 3 }.valid());
    assert!(!Field { size: [30, 20], resolution: 0 }.valid());
    assert!(!Field { size: [30, 20], resolution: usize::MAX }.valid());
    assert!(!Field { size: [2_000_000, 1], resolution: 1 }.valid());
}
