//! The sampling grid: a fixed-topology 2D grid of world positions, and the
//! field vector most recently evaluated at each of them.
//!
//! `coords` is laid out once by `init` — grid indices centered around the
//! origin and scaled by `spacing / resolution` — and never changes again;
//! `field` is rewritten every tick from the current charges.

use vstd::prelude::*;
use crate::fixed::{Fx, SCALE, fx_div_s, fx_mul_s, fx_sub_s, fx_sqrt_s};
use crate::vec2::{Vec2, div2, len2, len_sq2, lemma_len_sq2_nonneg};

verus! {

/// Raw value of the centering offset for an axis of `extent` cells:
/// half the extent, in raw units.
pub open spec fn half_units(extent: int) -> int {
    (extent * (SCALE as int)) / 2
}

/// Raw world coordinate of grid index `i` on an axis of `extent` cells:
/// `(i - extent/2) * spacing / resolution`.
pub open spec fn axis_coord(i: int, extent: int, spacing: int, res: int) -> int {
    fx_div_s(fx_mul_s(fx_sub_s(i * (SCALE as int), half_units(extent)), spacing), res * (SCALE as int))
}

/// World position of grid cell `(x, y)` on a `w` by `h` grid.
pub open spec fn coord_at(x: int, y: int, w: int, h: int, spacing: int, res: int) -> (int, int) {
    (axis_coord(x, w, spacing, res), axis_coord(y, h, spacing, res))
}

/// The grid of field sample points.
pub struct VectorField {
    pub size: [usize; 2],
    pub resolution: usize,
    pub field: Vec<Vec<Vec2>>,
    pub coords: Vec<Vec<Vec2>>,
}

impl VectorField {
    /// Sample columns: the logical width times the resolution multiplier.
    pub open spec fn spec_width(&self) -> int {
        self.size@[0] * self.resolution
    }

    /// Sample rows: the logical height times the resolution multiplier.
    pub open spec fn spec_height(&self) -> int {
        self.size@[1] * self.resolution
    }

    /// Shape invariant: `field` and `coords` are full `width` by `height`
    /// grids, and the sample counts fit the machine.
    pub open spec fn grid_wf(&self) -> bool {
        &&& self.spec_width() <= usize::MAX
        &&& self.spec_height() <= usize::MAX
        &&& self.field@.len() == self.spec_height()
        &&& self.coords@.len() == self.spec_height()
        &&& forall|y: int| 0 <= y < self.spec_height()
            ==> (#[trigger] self.field@[y])@.len() == self.spec_width()
        &&& forall|y: int| 0 <= y < self.spec_height()
            ==> (#[trigger] self.coords@[y])@.len() == self.spec_width()
    }

    /// Allocate a grid with empty rows; `init` lays the cells out.
    pub fn new(size: [usize; 2], resolution: usize) -> (r: VectorField)
        requires
            size@[0] * resolution <= usize::MAX,
            size@[1] * resolution <= usize::MAX,
        ensures
            r.size@ == size@,
            r.resolution == resolution,
            r.field@.len() == r.spec_height(),
            r.coords@.len() == r.spec_height(),
            forall|y: int| 0 <= y < r.spec_height() ==> (#[trigger] r.field@[y])@.len() == 0,
            forall|y: int| 0 <= y < r.spec_height() ==> (#[trigger] r.coords@[y])@.len() == 0,
    {
        let height: usize = size[1] * resolution;
        let mut field: Vec<Vec<Vec2>> = Vec::new();
        let mut coords: Vec<Vec<Vec2>> = Vec::new();
        for _i in 0..height
            invariant
                field@.len() == _i,
                coords@.len() == _i,
                forall|y: int| 0 <= y < _i ==> (#[trigger] field@[y])@.len() == 0,
                forall|y: int| 0 <= y < _i ==> (#[trigger] coords@[y])@.len() == 0,
        {
            field.push(Vec::new());
            coords.push(Vec::new());
        }
        VectorField { size, resolution, field, coords }
    }

    /// The sample shape `[width, height]`.
    pub fn get_shape(&self) -> (r: [usize; 2])
        requires
            self.spec_width() <= usize::MAX,
            self.spec_height() <= usize::MAX,
        ensures
            r@[0] == self.spec_width(),
            r@[1] == self.spec_height(),
    {
        [self.size[0] * self.resolution, self.size[1] * self.resolution]
    }

    /// Lay out every sample's world position, centering grid indices around
    /// the origin and scaling by `spacing / resolution`, and seed every
    /// field cell with the default unit vector `(0, 1)`.  Happens once;
    /// `coords` never changes afterwards.
    pub fn init(&mut self, spacing: Fx)
        requires
            old(self).resolution >= 1,
            1 <= old(self).spec_width() <= 1_000_000,
            1 <= old(self).spec_height() <= 1_000_000,
        ensures
            final(self).size@ == old(self).size@,
            final(self).resolution == old(self).resolution,
            final(self).grid_wf(),
            forall|y: int, x: int|
                0 <= y < final(self).spec_height() && 0 <= x < final(self).spec_width()
                    ==> (#[trigger] final(self).coords@[y]@[x])@
                        == coord_at(x, y, old(self).spec_width(), old(self).spec_height(),
                            spacing@, old(self).resolution as int),
            forall|y: int, x: int|
                0 <= y < final(self).spec_height() && 0 <= x < final(self).spec_width()
                    ==> (#[trigger] final(self).field@[y]@[x])@ == (0int, SCALE as int),
    {
        let ghost w_spec = self.spec_width();
        let ghost h_spec = self.spec_height();
        proof {
            assert(self.resolution as int <= self.size@[0] * self.resolution) by (nonlinear_arith)
                requires self.size@[0] >= 1, self.resolution >= 0,
            {}
        }
        let shape = self.get_shape();
        let width = shape[0];
        let height = shape[1];

        let half_w = Fx::from_raw(((width as i64) * SCALE) / 2);
        let half_h = Fx::from_raw(((height as i64) * SCALE) / 2);
        let res_fx = Fx::from_int(self.resolution as i64);

        let mut field: Vec<Vec<Vec2>> = Vec::new();
        let mut coords: Vec<Vec<Vec2>> = Vec::new();
        for y in 0..height
            invariant
                width == w_spec,
                height == h_spec,
                1 <= width <= 1_000_000,
                1 <= height <= 1_000_000,
                1 <= self.resolution,
                self.resolution as int * (SCALE as int) <= crate::fixed::RAW_MAX as int,
                half_w@ == half_units(w_spec),
                half_h@ == half_units(h_spec),
                res_fx@ == self.resolution as int * (SCALE as int),
                field@.len() == y,
                coords@.len() == y,
                forall|yy: int| 0 <= yy < y ==> (#[trigger] field@[yy])@.len() == width,
                forall|yy: int| 0 <= yy < y ==> (#[trigger] coords@[yy])@.len() == width,
                forall|yy: int, xx: int| 0 <= yy < y && 0 <= xx < width
                    ==> (#[trigger] coords@[yy]@[xx])@
                        == coord_at(xx, yy, w_spec, h_spec, spacing@, self.resolution as int),
                forall|yy: int, xx: int| 0 <= yy < y && 0 <= xx < width
                    ==> (#[trigger] field@[yy]@[xx])@ == (0int, SCALE as int),
        {
            let yi = Fx::from_int(y as i64);
            let cy = yi.sub(half_h).mul(spacing).div(res_fx);
            let mut field_row: Vec<Vec2> = Vec::new();
            let mut coord_row: Vec<Vec2> = Vec::new();
            for x in 0..width
                invariant
                    width == w_spec,
                    1 <= width <= 1_000_000,
                    1 <= self.resolution,
                    self.resolution as int * (SCALE as int) <= crate::fixed::RAW_MAX as int,
                    half_w@ == half_units(w_spec),
                    res_fx@ == self.resolution as int * (SCALE as int),
                    cy@ == axis_coord(y as int, h_spec, spacing@, self.resolution as int),
                    field_row@.len() == x,
                    coord_row@.len() == x,
                    forall|xx: int| 0 <= xx < x
                        ==> (#[trigger] coord_row@[xx])@
                            == coord_at(xx, y as int, w_spec, h_spec, spacing@, self.resolution as int),
                    forall|xx: int| 0 <= xx < x
                        ==> (#[trigger] field_row@[xx])@ == (0int, SCALE as int),
            {
                let xi = Fx::from_int(x as i64);
                let cx = xi.sub(half_w).mul(spacing).div(res_fx);
                coord_row.push(Vec2::new(cx, cy));
                field_row.push(Vec2::new(Fx::zero(), Fx::one()));
            }
            field.push(field_row);
            coords.push(coord_row);
        }
        self.field = field;
        self.coords = coords;
    }

    /// Derive, for every cell, the unit direction and the scalar magnitude
    /// of the sampled field vector: the sole numerical contract handed to
    /// the presentation layer.  A cell of magnitude zero gets the zero
    /// direction — the policy this library fixes for that singularity.
    pub fn normalise(&self) -> (r: (Vec<Vec<Vec2>>, Vec<Vec<Fx>>))
        requires
            self.grid_wf(),
        ensures
            r.0@.len() == self.spec_height(),
            r.1@.len() == self.spec_height(),
            forall|y: int| 0 <= y < self.spec_height()
                ==> (#[trigger] r.0@[y])@.len() == self.spec_width(),
            forall|y: int| 0 <= y < self.spec_height()
                ==> (#[trigger] r.1@[y])@.len() == self.spec_width(),
            forall|y: int, x: int| 0 <= y < self.spec_height() && 0 <= x < self.spec_width()
                ==> (#[trigger] r.1@[y]@[x])@ == len2(self.field@[y]@[x]@),
            forall|y: int, x: int| 0 <= y < self.spec_height() && 0 <= x < self.spec_width()
                ==> (#[trigger] r.0@[y]@[x])@ == (if len2(self.field@[y]@[x]@) == 0 {
                        (0int, 0int)
                    } else {
                        div2(self.field@[y]@[x]@, len2(self.field@[y]@[x]@))
                    }),
    {
        let shape = self.get_shape();
        let width = shape[0];
        let height = shape[1];

        let mut norm_field: Vec<Vec<Vec2>> = Vec::new();
        let mut mags: Vec<Vec<Fx>> = Vec::new();
        for y in 0..height
            invariant
                self.grid_wf(),
                width == self.spec_width(),
                height == self.spec_height(),
                norm_field@.len() == y,
                mags@.len() == y,
                forall|yy: int| 0 <= yy < y ==> (#[trigger] norm_field@[yy])@.len() == width,
                forall|yy: int| 0 <= yy < y ==> (#[trigger] mags@[yy])@.len() == width,
                forall|yy: int, xx: int| 0 <= yy < y && 0 <= xx < width
                    ==> (#[trigger] mags@[yy]@[xx])@ == len2(self.field@[yy]@[xx]@),
                forall|yy: int, xx: int| 0 <= yy < y && 0 <= xx < width
                    ==> (#[trigger] norm_field@[yy]@[xx])@ == (if len2(self.field@[yy]@[xx]@) == 0 {
                            (0int, 0int)
                        } else {
                            div2(self.field@[yy]@[xx]@, len2(self.field@[yy]@[xx]@))
                        }),
        {
            let row = &self.field[y];
            let mut norm_row: Vec<Vec2> = Vec::new();
            let mut mag_row: Vec<Fx> = Vec::new();
            for x in 0..width
                invariant
                    self.grid_wf(),
                    width == self.spec_width(),
                    height == self.spec_height(),
                    y < height,
                    row@ == self.field@[y as int]@,
                    norm_row@.len() == x,
                    mag_row@.len() == x,
                    forall|xx: int| 0 <= xx < x
                        ==> (#[trigger] mag_row@[xx])@ == len2(self.field@[y as int]@[xx]@),
                    forall|xx: int| 0 <= xx < x
                        ==> (#[trigger] norm_row@[xx])@
                            == (if len2(self.field@[y as int]@[xx]@) == 0 {
                                    (0int, 0int)
                                } else {
                                    div2(self.field@[y as int]@[xx]@, len2(self.field@[y as int]@[xx]@))
                                }),
            {
                let cell = row[x];
                let mag = cell.length();
                mag_row.push(mag);
                if mag.raw == 0 {
                    norm_row.push(Vec2::zero());
                } else {
                    proof {
                        lemma_len_sq2_nonneg(cell@);
                        crate::fixed::lemma_sqrt_nonneg(len_sq2(cell@));
                    }
                    norm_row.push(cell.div_scalar(mag));
                }
            }
            norm_field.push(norm_row);
            mags.push(mag_row);
        }
        (norm_field, mags)
    }
}

} // verus!
