use vstd::prelude::*;

verus! {

/// Why a set of dimensions is not a usable configuration.
#[derive(Clone, Copy, Debug, PartialEq, Eq, Structural)]
pub enum ConfigError {
    /// The raster has no columns.
    ImageWidthZero,
    /// The raster has no rows.
    ImageHeightZero,
    /// The lattice has zero or fewer cells along x.
    GridWidthNotPositive,
    /// The lattice has zero or fewer cells along y.
    GridHeightNotPositive,
    /// The lattice has more cells than a table in memory can hold.
    GridTooLarge,
}

/// The dimensions of one raster pass: the raster in pixels and the lattice in
/// cells. A value of this type always holds positive dimensions.
#[derive(Clone, Copy, Debug, PartialEq, Eq)]
pub struct Config {
    image_width: u32,
    image_height: u32,
    grid_width: u32,
    grid_height: u32,
}

/// The first reason, in the order of the parameters, for which the four
/// dimensions are refused; `None` where they are accepted.
pub open spec fn first_fault(
    image_width: int,
    image_height: int,
    grid_width: int,
    grid_height: int,
) -> Option<ConfigError> {
    if image_width <= 0 {
        Some(ConfigError::ImageWidthZero)
    } else if image_height <= 0 {
        Some(ConfigError::ImageHeightZero)
    } else if grid_width <= 0 {
        Some(ConfigError::GridWidthNotPositive)
    } else if grid_height <= 0 {
        Some(ConfigError::GridHeightNotPositive)
    } else if grid_width * grid_height > usize::MAX {
        Some(ConfigError::GridTooLarge)
    } else {
        None
    }
}

impl Config {
    /// Columns of the raster, for contracts.
    pub closed spec fn spec_image_width(&self) -> u32 {
        self.image_width
    }

    /// Rows of the raster, for contracts.
    pub closed spec fn spec_image_height(&self) -> u32 {
        self.image_height
    }

    /// Lattice cells along x, for contracts.
    pub closed spec fn spec_grid_width(&self) -> u32 {
        self.grid_width
    }

    /// Lattice cells along y, for contracts.
    pub closed spec fn spec_grid_height(&self) -> u32 {
        self.grid_height
    }

    /// Every dimension is positive, the lattice dimensions fit a signed 32-bit
    /// integer, and the number of cells fits a table index.
    pub open spec fn wf(&self) -> bool {
        &&& 0 < self.image_width()
        &&& 0 < self.image_height()
        &&& 0 < self.grid_width() <= i32::MAX
        &&& 0 < self.grid_height() <= i32::MAX
        &&& self.grid_width() * self.grid_height() <= usize::MAX
    }

    #[verifier::type_invariant]
    spec fn inv(&self) -> bool {
        self.wf()
    }

    /// Checks the four dimensions and keeps them. The first dimension that is
    /// not positive decides the error; a lattice of too many cells is refused
    /// last.
    pub fn new(image_width: u32, image_height: u32, grid_width: i32, grid_height: i32) -> (r:
        Result<Config, ConfigError>)
        ensures
            match r {
                Ok(c) => {
                    &&& first_fault(
                        image_width as int,
                        image_height as int,
                        grid_width as int,
                        grid_height as int,
                    ) is None
                    &&& c.wf()
                    &&& c.image_width() == image_width
                    &&& c.image_height() == image_height
                    &&& c.grid_width() == grid_width
                    &&& c.grid_height() == grid_height
                },
                Err(e) => first_fault(
                    image_width as int,
                    image_height as int,
                    grid_width as int,
                    grid_height as int,
                ) == Some(e),
            },
    {
        if image_width == 0 {
            return Err(ConfigError::ImageWidthZero);
        }
        if image_height == 0 {
            return Err(ConfigError::ImageHeightZero);
        }
        if grid_width <= 0 {
            return Err(ConfigError::GridWidthNotPositive);
        }
        if grid_height <= 0 {
            return Err(ConfigError::GridHeightNotPositive);
        }
        assert(grid_width * grid_height <= 0x7fff_ffff * 0x7fff_ffff) by (nonlinear_arith)
            requires
                0 < grid_width <= 0x7fff_ffff,
                0 < grid_height <= 0x7fff_ffff,
        ;
        let cells: u64 = (grid_width as u64) * (grid_height as u64);
        if cells > usize::MAX as u64 {
            return Err(ConfigError::GridTooLarge);
        }
        Ok(
            Config {
                image_width,
                image_height,
                grid_width: grid_width as u32,
                grid_height: grid_height as u32,
            },
        )
    }

    /// The number of lattice cells, which is the length of a direction table.
    pub fn cells(&self) -> (n: usize)
        ensures
            n == self.grid_width() * self.grid_height(),
            n > 0,
    {
        proof {
            use_type_invariant(self);
            assert(0 < self.grid_width * self.grid_height) by (nonlinear_arith)
                requires
                    0 < self.grid_width,
                    0 < self.grid_height,
            ;
        }
        (self.grid_width as usize) * (self.grid_height as usize)
    }

    /// Columns of the raster.
    #[verifier::when_used_as_spec(spec_image_width)]
    pub fn image_width(&self) -> (w: u32)
        ensures
            w == self.image_width(),
            w > 0,
    {
        proof {
            use_type_invariant(self);
        }
        self.image_width
    }

    /// Rows of the raster.
    #[verifier::when_used_as_spec(spec_image_height)]
    pub fn image_height(&self) -> (h: u32)
        ensures
            h == self.image_height(),
            h > 0,
    {
        proof {
            use_type_invariant(self);
        }
        self.image_height
    }

    /// Lattice cells along x.
    #[verifier::when_used_as_spec(spec_grid_width)]
    pub fn grid_width(&self) -> (w: u32)
        ensures
            w == self.grid_width(),
            0 < w <= i32::MAX,
    {
        proof {
            use_type_invariant(self);
        }
        self.grid_width
    }

    /// Lattice cells along y.
    #[verifier::when_used_as_spec(spec_grid_height)]
    pub fn grid_height(&self) -> (h: u32)
        ensures
            h == self.grid_height(),
            0 < h <= i32::MAX,
    {
        proof {
            use_type_invariant(self);
        }
        self.grid_height
    }
}

} // verus!
