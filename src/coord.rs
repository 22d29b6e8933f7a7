use vstd::prelude::*;

verus! {

/// A pixel position on the screen.
#[derive(Debug, Copy, Clone, PartialEq, Eq, Structural)]
pub struct ScreenPoint {
    x: i32,
    y: i32,
}

/// Integer coordinates of a tile in the map grid.
#[derive(Debug, Copy, Clone, PartialEq, Eq, Structural)]
pub struct MapPoint {
    x: i16,
    y: i16,
}

impl ScreenPoint {
    pub closed spec fn spec_x(&self) -> i32 {
        self.x
    }

    pub closed spec fn spec_y(&self) -> i32 {
        self.y
    }

    pub fn new(x: i32, y: i32) -> (r: Self)
        ensures
            r.spec_x() == x,
            r.spec_y() == y,
    {
        Self { x, y }
    }

    pub fn x(&self) -> (r: i32)
        ensures
            r == self.spec_x(),
    {
        self.x
    }

    pub fn y(&self) -> (r: i32)
        ensures
            r == self.spec_y(),
    {
        self.y
    }
}

impl MapPoint {
    pub closed spec fn spec_x(&self) -> i16 {
        self.x
    }

    pub closed spec fn spec_y(&self) -> i16 {
        self.y
    }

    pub fn new(x: i16, y: i16) -> (r: Self)
        ensures
            r.spec_x() == x,
            r.spec_y() == y,
    {
        Self { x, y }
    }

    pub fn x(&self) -> (r: i16)
        ensures
            r == self.spec_x(),
    {
        self.x
    }

    pub fn y(&self) -> (r: i16)
        ensures
            r == self.spec_y(),
    {
        self.y
    }
}

} // verus!
