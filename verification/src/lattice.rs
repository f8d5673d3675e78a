use crate::config::Config;
use vstd::prelude::*;

verus! {

/// The exact quotient `numer / denom` of two whole numbers.
#[derive(Clone, Copy, Debug, PartialEq, Eq, Structural)]
pub struct Ratio {
    pub numer: u64,
    pub denom: u32,
}

/// A sample point in lattice space, exact in both coordinates.
#[derive(Clone, Copy, Debug, PartialEq, Eq, Structural)]
pub struct LatticePoint {
    pub x: Ratio,
    pub y: Ratio,
}

impl Config {
    /// Maps a pixel to lattice space: along each axis the pixel coordinate,
    /// divided by the raster's extent and multiplied by the grid's. The
    /// quotient is kept exact, with the raster's extent, which is never zero,
    /// as its denominator.
    pub fn to_lattice(&self, pixel_x: u32, pixel_y: u32) -> (p: LatticePoint)
        ensures
            p.x.numer == pixel_x * self.grid_width(),
            p.x.denom == self.image_width(),
            p.y.numer == pixel_y * self.grid_height(),
            p.y.denom == self.image_height(),
            p.x.denom > 0,
            p.y.denom > 0,
    {
        let grid_width = self.grid_width();
        let grid_height = self.grid_height();
        assert(pixel_x * grid_width <= 0xffff_ffff * 0x7fff_ffff && pixel_y * grid_height
            <= 0xffff_ffff * 0x7fff_ffff) by (nonlinear_arith)
            requires
                grid_width <= 0x7fff_ffff,
                grid_height <= 0x7fff_ffff,
        ;
        LatticePoint {
            x: Ratio { numer: (pixel_x as u64) * (grid_width as u64), denom: self.image_width() },
            y: Ratio {
                numer: (pixel_y as u64) * (grid_height as u64),
                denom: self.image_height(),
            },
        }
    }
}

} // verus!
