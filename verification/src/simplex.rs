use vstd::prelude::*;

verus! {

/// A vertex of the skewed square lattice, by its integer coordinates.
#[derive(Clone, Copy, Debug, PartialEq, Eq, Structural)]
pub struct Vertex {
    pub x: i64,
    pub y: i64,
}

/// How the x offset of a sample point from its base vertex compares with its
/// y offset. `Unordered` stands for offsets that cannot be compared, such as
/// an offset that is not a number.
#[derive(Clone, Copy, Debug, PartialEq, Eq, Structural)]
pub enum OffsetOrder {
    XGreater,
    Equal,
    YGreater,
    Unordered,
}

/// The three lattice vertices whose triangle encloses a sample point: the
/// base vertex of the unit square, one of its two side neighbours, and the
/// vertex diagonally opposite the base.
#[derive(Clone, Copy, Debug, PartialEq, Eq, Structural)]
pub struct Triangle {
    pub base: Vertex,
    pub middle: Vertex,
    pub far: Vertex,
}

impl OffsetOrder {
    /// Whether the middle vertex lies one step along x from the base. Only a
    /// strictly greater x offset selects the x step; a tie, a greater y
    /// offset and unordered offsets all select the y step.
    pub open spec fn steps_along_x(self) -> bool {
        self is XGreater
    }
}

impl Triangle {
    /// The x coordinate of the middle vertex for a base at `base_x`.
    pub open spec fn middle_x(base_x: int, order: OffsetOrder) -> int {
        if order.steps_along_x() {
            base_x + 1
        } else {
            base_x
        }
    }

    /// The y coordinate of the middle vertex for a base at `base_y`.
    pub open spec fn middle_y(base_y: int, order: OffsetOrder) -> int {
        if order.steps_along_x() {
            base_y
        } else {
            base_y + 1
        }
    }

    /// The triangle of the unit square at `base` that the offsets select.
    /// The base must leave room for the step of one along each axis.
    pub fn enclosing(base: Vertex, order: OffsetOrder) -> (t: Triangle)
        requires
            base.x < i64::MAX,
            base.y < i64::MAX,
        ensures
            t.base == base,
            t.middle.x == Triangle::middle_x(base.x as int, order),
            t.middle.y == Triangle::middle_y(base.y as int, order),
            t.far.x == base.x + 1,
            t.far.y == base.y + 1,
    {
        let middle = match order {
            OffsetOrder::XGreater => Vertex { x: base.x + 1, y: base.y },
            _ => Vertex { x: base.x, y: base.y + 1 },
        };
        Triangle { base, middle, far: Vertex { x: base.x + 1, y: base.y + 1 } }
    }
}

} // verus!
