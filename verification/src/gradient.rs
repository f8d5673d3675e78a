use crate::angle::Angle;
use crate::config::Config;
use crate::random::draw_units;
use crate::simplex::Triangle;
use crate::simplex::Vertex;
use rand::rngs::StdRng;
use vstd::arithmetic::div_mod::lemma_add_mod_noop;
use vstd::arithmetic::div_mod::lemma_mod_bound;
use vstd::arithmetic::div_mod::lemma_mod_multiples_vanish;
use vstd::arithmetic::div_mod::lemma_small_mod;
use vstd::prelude::*;

verus! {

/// The compass direction of the vertex `(vx, vy)`: the sum of its coordinates
/// modulo eight, never negative.
pub open spec fn compass_index(vx: int, vy: int) -> int {
    (vx + vy) % 8
}

/// The table entry of the vertex `(vx, vy)` on a lattice of `width` by
/// `height` cells. Each coordinate wraps around its axis with the
/// mathematical modulo, so vertices below zero or beyond the grid resolve
/// too; rows are `height` entries apart and the sum wraps around the table.
pub open spec fn lattice_index(vx: int, vy: int, width: int, height: int) -> int {
    ((vx % width) + (vy % height) * height) % (width * height)
}

/// Every vertex resolves to an entry of the table, whatever the sign or the
/// size of its coordinates.
pub proof fn lemma_lattice_index_in_range(vx: int, vy: int, width: int, height: int)
    requires
        0 < width,
        0 < height,
    ensures
        0 <= lattice_index(vx, vy, width, height) < width * height,
{
    assert(0 < width * height) by (nonlinear_arith)
        requires
            0 < width,
            0 < height,
    ;
    lemma_mod_bound((vx % width) + (vy % height) * height, width * height);
}

/// Vertices that lie whole grid periods apart resolve to the same entry: a
/// vertex one column left of the grid shares its direction with the last
/// column, and so on along both axes.
pub proof fn lemma_lattice_index_periodic(
    vx: int,
    vy: int,
    width: int,
    height: int,
    k: int,
    m: int,
)
    requires
        0 < width,
        0 < height,
    ensures
        lattice_index(vx + k * width, vy + m * height, width, height) == lattice_index(
            vx,
            vy,
            width,
            height,
        ),
{
    assert(vx + k * width == width * k + vx && vy + m * height == height * m + vy)
        by (nonlinear_arith);
    lemma_mod_multiples_vanish(k, vx, width);
    lemma_mod_multiples_vanish(m, vy, height);
}

/// On a square grid the cells inside the grid are laid out row after row,
/// each with an entry of its own.
pub proof fn lemma_square_index_row_major(x: int, y: int, side: int)
    requires
        0 <= x < side,
        0 <= y < side,
    ensures
        lattice_index(x, y, side, side) == x + y * side,
{
    lemma_small_mod(x as nat, side as nat);
    lemma_small_mod(y as nat, side as nat);
    assert(0 <= x + y * side < side * side) by (nonlinear_arith)
        requires
            0 <= x < side,
            0 <= y < side,
    ;
    lemma_small_mod((x + y * side) as nat, (side * side) as nat);
}

/// A shift whose two parts sum to a multiple of eight leaves the compass
/// direction of every vertex as it is.
pub proof fn lemma_compass_index_periodic(vx: int, vy: int, dx: int, dy: int)
    requires
        (dx + dy) % 8 == 0,
    ensures
        compass_index(vx + dx, vy + dy) == compass_index(vx, vy),
{
}

/// The remainder of `a` modulo `m` that is never negative.
fn floor_mod(a: i64, m: i64) -> (r: i64)
    requires
        m > 0,
    ensures
        r == a % m,
        0 <= r < m,
{
    proof {
        lemma_mod_bound(a as int, m as int);
    }
    a.checked_rem_euclid(m).unwrap()
}

/// One direction per lattice cell, fixed once the table is built.
#[derive(Debug)]
pub struct LatticeTable {
    width: u32,
    height: u32,
    angles: Vec<Angle>,
}

impl View for LatticeTable {
    type V = Seq<Angle>;

    /// The directions of the table, in the order of their indices.
    closed spec fn view(&self) -> Seq<Angle> {
        self.angles@
    }
}

impl LatticeTable {
    /// Lattice cells along x, for contracts.
    pub closed spec fn spec_width(&self) -> u32 {
        self.width
    }

    /// Lattice cells along y, for contracts.
    pub closed spec fn spec_height(&self) -> u32 {
        self.height
    }

    /// Both dimensions are positive and fit a signed 32-bit integer, and the
    /// table holds one direction per cell.
    pub open spec fn wf(&self) -> bool {
        &&& 0 < self.width() <= i32::MAX
        &&& 0 < self.height() <= i32::MAX
        &&& self@.len() == self.width() * self.height()
    }

    #[verifier::type_invariant]
    spec fn inv(&self) -> bool {
        self.wf()
    }

    /// The turn units of the direction at vertex `(vx, vy)`.
    pub open spec fn units_at(&self, vx: int, vy: int) -> int {
        self@[lattice_index(vx, vy, self.width() as int, self.height() as int)].units as int
    }

    /// Lattice cells along x.
    #[verifier::when_used_as_spec(spec_width)]
    pub fn width(&self) -> (w: u32)
        ensures
            w == self.width(),
    {
        self.width
    }

    /// Lattice cells along y.
    #[verifier::when_used_as_spec(spec_height)]
    pub fn height(&self) -> (h: u32)
        ensures
            h == self.height(),
    {
        self.height
    }

    /// The directions of the table, in the order of their indices.
    pub fn angles(&self) -> (a: &Vec<Angle>)
        ensures
            a@ == self@,
    {
        &self.angles
    }

    /// The table entry that the vertex resolves to.
    pub fn index_of(&self, v: Vertex) -> (i: usize)
        ensures
            i == lattice_index(v.x as int, v.y as int, self.width() as int, self.height() as int),
            i < self@.len(),
    {
        proof {
            use_type_invariant(self);
        }
        let width = self.width as i64;
        let height = self.height as i64;
        let col = floor_mod(v.x, width) as u64;
        let row = floor_mod(v.y, height) as u64;
        assert(row * height <= 0x7fff_ffff * 0x7fff_ffff && 0 < width * height)
            by (nonlinear_arith)
            requires
                0 <= row < height <= 0x7fff_ffff,
                0 < width,
        ;
        let cells = self.angles.len() as u64;
        let offset = col + row * (height as u64);
        proof {
            lemma_mod_bound(offset as int, cells as int);
        }
        (offset % cells) as usize
    }

    /// The direction at the vertex. Every vertex has one: coordinates outside
    /// the grid wrap around it.
    pub fn lookup(&self, v: Vertex) -> (a: Angle)
        ensures
            a.units == self.units_at(v.x as int, v.y as int),
    {
        let i = self.index_of(v);
        self.angles[i]
    }
}

/// The directions at the three corners of a triangle.
#[derive(Clone, Copy, Debug, PartialEq, Eq, Structural)]
pub struct CornerGradients {
    pub base: Angle,
    pub middle: Angle,
    pub far: Angle,
}

/// The gradient directions of a lattice, one per vertex.
#[derive(Debug)]
pub enum GradientField {
    /// Eight fixed directions, 45 degrees apart; a vertex takes the one that
    /// the sum of its coordinates selects.
    Compass,
    /// One direction per lattice cell, looked up with wrap-around.
    Lattice(LatticeTable),
}

impl GradientField {
    /// The table of a lattice field is well formed; the compass field always
    /// is.
    pub open spec fn wf(&self) -> bool {
        match self {
            GradientField::Compass => true,
            GradientField::Lattice(t) => t.wf(),
        }
    }

    /// The turn units of the direction at vertex `(vx, vy)`.
    pub open spec fn units_at(&self, vx: int, vy: int) -> int {
        match self {
            GradientField::Compass => Angle::compass_units(compass_index(vx, vy)),
            GradientField::Lattice(t) => t.units_at(vx, vy),
        }
    }

    /// Builds a lattice field from its directions, which must be one per cell
    /// of the configured grid, in the order of their table indices.
    pub fn from_angles(config: &Config, angles: Vec<Angle>) -> (r: Option<GradientField>)
        ensures
            match r {
                Some(f) => {
                    &&& angles@.len() == config.grid_width() * config.grid_height()
                    &&& f matches GradientField::Lattice(t)
                    &&& t.wf()
                    &&& t.width() == config.grid_width()
                    &&& t.height() == config.grid_height()
                    &&& t@ == angles@
                },
                None => angles@.len() != config.grid_width() * config.grid_height(),
            },
    {
        if angles.len() != config.cells() {
            return None;
        }
        Some(
            GradientField::Lattice(
                LatticeTable { width: config.grid_width(), height: config.grid_height(), angles },
            ),
        )
    }

    /// Draws one direction per cell of the configured grid from `rng`, row by
    /// row, and builds the field from the draws as `from_angles` does. Each
    /// direction is a full 32-bit draw, so it is uniform over the whole turn
    /// as far as the generator is. Which directions come back depends on the
    /// generator alone.
    pub fn generate(config: &Config, rng: &mut StdRng) -> (f: GradientField)
        ensures
            f matches GradientField::Lattice(t) && t.wf() && t.width() == config.grid_width()
                && t.height() == config.grid_height(),
    {
        let width = config.grid_width();
        let height = config.grid_height();
        let mut angles: Vec<Angle> = Vec::with_capacity(config.cells());
        let mut row: u32 = 0;
        while row < height
            invariant
                row <= height,
                angles@.len() == row * width,
            decreases height - row,
        {
            let mut col: u32 = 0;
            while col < width
                invariant
                    col <= width,
                    angles@.len() == row * width + col,
                decreases width - col,
            {
                let units = draw_units(rng);
                angles.push(Angle { units });
                col += 1;
            }
            assert((row + 1) * width == row * width + width) by (nonlinear_arith);
            row += 1;
        }
        assert(height * width == width * height) by (nonlinear_arith);
        GradientField::from_angles(config, angles).unwrap()
    }

    /// The direction at the vertex.
    pub fn lookup(&self, v: Vertex) -> (a: Angle)
        ensures
            a.units == self.units_at(v.x as int, v.y as int),
    {
        match self {
            GradientField::Compass => {
                let sum = floor_mod(v.x, 8) + floor_mod(v.y, 8);
                proof {
                    lemma_add_mod_noop(v.x as int, v.y as int, 8);
                }
                Angle::compass((sum % 8) as u8)
            },
            GradientField::Lattice(t) => t.lookup(v),
        }
    }

    /// The directions at the corners of the triangle, corner by corner.
    pub fn gradients_of(&self, triangle: &Triangle) -> (g: CornerGradients)
        ensures
            g.base.units == self.units_at(triangle.base.x as int, triangle.base.y as int),
            g.middle.units == self.units_at(triangle.middle.x as int, triangle.middle.y as int),
            g.far.units == self.units_at(triangle.far.x as int, triangle.far.y as int),
    {
        CornerGradients {
            base: self.lookup(triangle.base),
            middle: self.lookup(triangle.middle),
            far: self.lookup(triangle.far),
        }
    }
}

} // verus!
