//! The sampling grid: layout, field evaluation, normalization, and the
//! invariance of the layout across ticks.

use particle_sim::charge::{Charge, Charges};
use particle_sim::fixed::{Fx, SCALE};
use particle_sim::vec2::Vec2;
use particle_sim::vector_field::VectorField;

fn v2(x: i64, y: i64) -> Vec2 {
    Vec2 { x: Fx::from_raw(x), y: Fx::from_raw(y) }
}

fn grid_2x2() -> VectorField {
    let mut vf = VectorField::new([2, 2], 1);
    vf.init(Fx::one());
    vf
}

#[test]
fn new_allocates_empty_rows() {
    let vf = VectorField::new([3, 2], 2);
    assert_eq!(vf.field.len(), 4);
    assert_eq!(vf.coords.len(), 4);
    assert!(vf.field.iter().all(|row| row.is_empty()));
    assert!(vf.coords.iter().all(|row| row.is_empty()));
}

#[test]
fn get_shape_multiplies_size_by_resolution() {
    let vf = VectorField::new([3, 2], 4);
    assert_eq!(vf.get_shape(), [12, 8]);
}

#[test]
fn init_centers_coords_and_seeds_field() {
    // 2x2 grid, resolution 1, spacing 1: coord (x,y) = (x-1, y-1).
    let vf = grid_2x2();
    assert_eq!(vf.coords[0][0], v2(-SCALE, -SCALE));
    assert_eq!(vf.coords[0][1], v2(0, -SCALE));
    assert_eq!(vf.coords[1][0], v2(-SCALE, 0));
    assert_eq!(vf.coords[1][1], v2(0, 0));
    for row in &vf.field {
        for cell in row {
            assert_eq!(*cell, v2(0, SCALE));
        }
    }
}

#[test]
fn init_scales_by_spacing_over_resolution() {
    // 1x1 grid at resolution 2, spacing 3: coord (x,y) =
    // ((x - 1) * 3 / 2, (y - 1) * 3 / 2).
    let mut vf = VectorField::new([1, 1], 2);
    vf.init(Fx::from_int(3));
    assert_eq!(vf.coords[0][0], v2(-1_500_000, -1_500_000));
    assert_eq!(vf.coords[0][1], v2(0, -1_500_000));
    assert_eq!(vf.coords[1][0], v2(-1_500_000, 0));
    assert_eq!(vf.coords[1][1], v2(0, 0));
}

#[test]
fn zero_charges_leave_every_cell_zero() {
    let mut vf = grid_2x2();
    let charges = Charges::new(vec![]);
    charges.apply_to_field(&mut vf);
    for row in &vf.field {
        for cell in row {
            assert_eq!(*cell, v2(0, 0));
        }
    }
}

#[test]
fn field_superposes_single_charge() {
    let mut vf = grid_2x2();
    // A unit charge two units right of the cell at world (0, 0).
    let c = Charge::new(Fx::one(), v2(2 * SCALE, 0), v2(0, 0));
    Charges::new(vec![c]).apply_to_field(&mut vf);
    // At (0,0): direction (-1, 0), magnitude 1/4.
    assert_eq!(vf.field[1][1], v2(-SCALE / 4, 0));
}

#[test]
fn coords_never_change_after_init() {
    let mut vf = grid_2x2();
    let before = vf.coords.clone();
    let charges = Charges::new(vec![
        Charge::new(Fx::one(), v2(5 * SCALE, 0), v2(0, 0)),
        Charge::new(Fx::from_int(-3), v2(0, 7 * SCALE), v2(0, 0)),
    ]);
    charges.apply_to_field(&mut vf);
    assert_eq!(vf.coords, before);
    charges.apply_to_field(&mut vf);
    assert_eq!(vf.coords, before);
    let empty = Charges::new(vec![]);
    empty.apply_to_field(&mut vf);
    assert_eq!(vf.coords, before);
}

#[test]
fn normalise_splits_direction_and_magnitude() {
    // Freshly seeded cells are (0, 1): unit magnitude, direction (0, 1).
    let vf = grid_2x2();
    let (dirs, mags) = vf.normalise();
    for row in &dirs {
        for cell in row {
            assert_eq!(*cell, v2(0, SCALE));
        }
    }
    for row in &mags {
        for mag in row {
            assert_eq!(mag.raw, SCALE);
        }
    }
}

#[test]
fn normalise_zero_cell_gives_zero_direction() {
    let mut vf = grid_2x2();
    Charges::new(vec![]).apply_to_field(&mut vf);
    let (dirs, mags) = vf.normalise();
    for y in 0..2 {
        for x in 0..2 {
            assert_eq!(dirs[y][x], v2(0, 0));
            assert_eq!(mags[y][x].raw, 0);
        }
    }
}

#[test]
fn normalise_scales_to_unit_length() {
    let mut vf = grid_2x2();
    // One charge placed so the cell at world (0,0) sees a diagonal pull.
    let c = Charge::new(Fx::one(), v2(3 * SCALE, 4 * SCALE), v2(0, 0));
    Charges::new(vec![c]).apply_to_field(&mut vf);
    let (dirs, mags) = vf.normalise();
    let cell = vf.field[1][1];
    let mag = mags[1][1];
    assert_eq!(mag, cell.length());
    assert_eq!(dirs[1][1], Vec2 { x: cell.x.div(mag), y: cell.y.div(mag) });
}
