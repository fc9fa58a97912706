use vstd::prelude::*;

verus! {

/// A point of the terminal plane together with its draw layer `z`.
#[derive(Debug, Clone, Copy, PartialEq, Eq, Structural)]
pub struct Coords {
    pub x: i32,
    pub y: i32,
    pub z: i32,
}

impl Coords {
    pub fn new(x: i32, y: i32, z: i32) -> (r: Coords)
        ensures
            r.x == x,
            r.y == y,
            r.z == z,
    {
        Coords { x, y, z }
    }

    pub fn x(&self) -> (r: i32)
        ensures
            r == self.x,
    {
        self.x
    }

    pub fn y(&self) -> (r: i32)
        ensures
            r == self.y,
    {
        self.y
    }

    pub fn z(&self) -> (r: i32)
        ensures
            r == self.z,
    {
        self.z
    }

    pub fn set_x(&mut self, x: i32)
        ensures
            *final(self) == (Coords { x, ..*old(self) }),
    {
        self.x = x;
    }

    pub fn set_y(&mut self, y: i32)
        ensures
            *final(self) == (Coords { y, ..*old(self) }),
    {
        self.y = y;
    }

    pub fn set_z(&mut self, z: i32)
        ensures
            *final(self) == (Coords { z, ..*old(self) }),
    {
        self.z = z;
    }
}

} // verus!
