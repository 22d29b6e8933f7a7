use vstd::prelude::*;

verus! {

/// Fixed-point scale used for fractions of a tile: `FULL` is one whole tile
/// edge, and also a fully open door. Fractions are counted in millionths.
pub const FULL: u32 = 1_000_000;

/// Where the texture of a sliding door is seen, or `None` where the door has
/// retracted: the door moves by `opening` millionths towards one side.
pub open spec fn lateral_column(opening: int, offset: int) -> Option<int> {
    if offset > FULL - opening || offset < 0 {
        None
    } else {
        Some(offset + opening)
    }
}

/// Where the texture of a door that splits in its middle is seen, or `None`
/// inside the centred gap. The gap is the band strictly between
/// `(FULL - opening) / 2` and `FULL - (FULL - opening) / 2`; both halves move
/// outwards by half the opening (rounded down to a millionth).
pub open spec fn central_column(opening: int, offset: int) -> Option<int> {
    let closing = FULL - opening;
    if closing < 2 * offset && 2 * offset < 2 * FULL - closing {
        None
    } else if 2 * offset <= closing {
        Some(offset + opening / 2)
    } else {
        Some(offset - opening / 2)
    }
}

/// Lifts an optional fixed-point value to the integers.
pub open spec fn as_int_option(o: Option<u32>) -> Option<int> {
    match o {
        Some(v) => Some(v as int),
        None => None,
    }
}

/// A door that slides entirely to one side.
#[derive(Debug, Copy, Clone, PartialEq, Eq, Structural)]
pub struct LateralOpening {}

/// A door that splits in two halves sliding outwards.
#[derive(Debug, Copy, Clone, PartialEq, Eq, Structural)]
pub struct CentralOpening {}

/// The shape of a door.
#[derive(Debug, Copy, Clone, PartialEq, Eq, Structural)]
pub enum Openable {
    Lateral(LateralOpening),
    Central(CentralOpening),
}

impl LateralOpening {
    pub fn new() -> (r: Self) {
        Self {  }
    }

    /// Texture column seen at `offset` across the tile when the door is open by
    /// `opening_percentage`, both in millionths.
    pub fn door_column(&self, opening_percentage: u32, offset: u32) -> (r: Option<u32>)
        requires
            opening_percentage <= FULL,
            offset < FULL,
        ensures
            as_int_option(r) == lateral_column(opening_percentage as int, offset as int),
    {
        if offset > FULL - opening_percentage {
            None
        } else {
            Some(offset + opening_percentage)
        }
    }
}

impl CentralOpening {
    pub fn new() -> (r: Self) {
        Self {  }
    }

    /// Texture column seen at `offset` across the tile when the door is open by
    /// `opening_percentage`, both in millionths.
    pub fn door_column(&self, opening_percentage: u32, offset: u32) -> (r: Option<u32>)
        requires
            opening_percentage <= FULL,
            offset < FULL,
        ensures
            as_int_option(r) == central_column(opening_percentage as int, offset as int),
    {
        let closing: u32 = FULL - opening_percentage;
        let twice: u32 = 2 * offset;
        if closing < twice && twice < 2 * FULL - closing {
            None
        } else if twice <= closing {
            Some(offset + opening_percentage / 2)
        } else {
            Some(offset - opening_percentage / 2)
        }
    }
}

impl Openable {
    /// The column function of this shape.
    pub open spec fn column(&self, opening: int, offset: int) -> Option<int> {
        match self {
            Openable::Lateral(_) => lateral_column(opening, offset),
            Openable::Central(_) => central_column(opening, offset),
        }
    }

    pub fn door_column(&self, opening_percentage: u32, offset: u32) -> (r: Option<u32>)
        requires
            opening_percentage <= FULL,
            offset < FULL,
        ensures
            as_int_option(r) == self.column(opening_percentage as int, offset as int),
    {
        match self {
            Openable::Lateral(door) => door.door_column(opening_percentage, offset),
            Openable::Central(door) => door.door_column(opening_percentage, offset),
        }
    }
}

/// A fully open door shows nothing anywhere strictly inside the tile, whatever
/// its shape. (At the very edge, offset zero, both shapes still show a column.)
pub proof fn lemma_fully_open_is_invisible(shape: Openable, offset: int)
    requires
        0 < offset < FULL,
    ensures
        shape.column(FULL as int, offset) is None,
{
}

/// A fully closed door shows its texture unshifted: the column is the offset
/// itself, whatever its shape.
pub proof fn lemma_fully_closed_is_identity(shape: Openable, offset: int)
    requires
        0 <= offset < FULL,
    ensures
        shape.column(0, offset) == Some(offset),
{
}

} // verus!
