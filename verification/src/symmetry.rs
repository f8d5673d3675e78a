use crate::gradient::lemma_compass_index_periodic;
use crate::gradient::lemma_lattice_index_periodic;
use crate::gradient::GradientField;
use crate::simplex::OffsetOrder;
use crate::simplex::Triangle;
use vstd::arithmetic::div_mod::lemma_fundamental_div_mod;
use vstd::prelude::*;

verus! {

impl GradientField {
    /// Whether the shift by `(dx, dy)` is a period of the field: a whole
    /// number of grids along each axis for a lattice field, a shift whose
    /// parts sum to a multiple of eight for the compass field.
    pub open spec fn is_period(&self, dx: int, dy: int) -> bool {
        match self {
            GradientField::Compass => (dx + dy) % 8 == 0,
            GradientField::Lattice(t) => dx % (t.width() as int) == 0 && dy % (t.height() as int)
                == 0,
        }
    }
}

/// A period of the field maps its directions onto themselves: the vertex
/// reached by the shift has the direction of the vertex it came from. Thus
/// the vertex `(-1, 3)` of a grid of 16 by 16 cells has the direction of
/// `(15, 3)`.
pub proof fn lemma_period_keeps_direction(field: GradientField, vx: int, vy: int, dx: int, dy: int)
    requires
        field.wf(),
        field.is_period(dx, dy),
    ensures
        field.units_at(vx + dx, vy + dy) == field.units_at(vx, vy),
{
    match field {
        GradientField::Compass => {
            lemma_compass_index_periodic(vx, vy, dx, dy);
        },
        GradientField::Lattice(t) => {
            let width = t.width() as int;
            let height = t.height() as int;
            lemma_fundamental_div_mod(dx, width);
            lemma_fundamental_div_mod(dy, height);
            assert(dx == (dx / width) * width && dy == (dy / height) * height)
                by (nonlinear_arith)
                requires
                    dx == width * (dx / width) + dx % width,
                    dy == height * (dy / height) + dy % height,
                    dx % width == 0,
                    dy % height == 0,
            ;
            lemma_lattice_index_periodic(vx, vy, width, height, dx / width, dy / height);
        },
    }
}

/// A period of the field carries the triangle of a sample onto a triangle of
/// the same shape with the same three directions: the triangle at the
/// shifted base is the shifted triangle, and corner by corner the directions
/// agree. What is computed from the corners' directions and the sample's
/// offsets from them is therefore the same before and after the shift.
pub proof fn lemma_period_keeps_corners(
    field: GradientField,
    base_x: int,
    base_y: int,
    order: OffsetOrder,
    dx: int,
    dy: int,
)
    requires
        field.wf(),
        field.is_period(dx, dy),
    ensures
        Triangle::middle_x(base_x + dx, order) == Triangle::middle_x(base_x, order) + dx,
        Triangle::middle_y(base_y + dy, order) == Triangle::middle_y(base_y, order) + dy,
        field.units_at(base_x + dx, base_y + dy) == field.units_at(base_x, base_y),
        field.units_at(
            Triangle::middle_x(base_x + dx, order),
            Triangle::middle_y(base_y + dy, order),
        ) == field.units_at(Triangle::middle_x(base_x, order), Triangle::middle_y(base_y, order)),
        field.units_at(base_x + dx + 1, base_y + dy + 1) == field.units_at(base_x + 1, base_y + 1),
{
    lemma_period_keeps_direction(field, base_x, base_y, dx, dy);
    lemma_period_keeps_direction(
        field,
        Triangle::middle_x(base_x, order),
        Triangle::middle_y(base_y, order),
        dx,
        dy,
    );
    lemma_period_keeps_direction(field, base_x + 1, base_y + 1, dx, dy);
}

} // verus!
