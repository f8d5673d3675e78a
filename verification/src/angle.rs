use vstd::prelude::*;

verus! {

/// One eighth of a full turn (45 degrees) in turn units.
pub const EIGHTH_TURN: u32 = 0x2000_0000;

/// A direction in the plane, held as a binary fraction of a full turn:
/// `units / 2^32` turns counter-clockwise from the positive x axis.
///
/// Every value denotes exactly one unit vector, so a table of angles is a
/// table of unit gradients by construction.
#[derive(Clone, Copy, Debug, PartialEq, Eq, Structural)]
pub struct Angle {
    pub units: u32,
}

impl Angle {
    /// Turn units of the compass direction `index`: the eight directions lie
    /// 45 degrees apart, and the index is taken modulo eight.
    pub open spec fn compass_units(index: int) -> int {
        (index % 8) * EIGHTH_TURN
    }

    /// The compass direction `index`, counted in steps of 45 degrees from the
    /// positive x axis.
    pub fn compass(index: u8) -> (a: Angle)
        ensures
            a.units == Angle::compass_units(index as int),
    {
        let step: u32 = (index % 8) as u32;
        Angle { units: step * EIGHTH_TURN }
    }
}

} // verus!
