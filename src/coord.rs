use vstd::prelude::*;

use crate::engine::Size;

verus! {

/// A point of the terminal plane: `x` grows to the right, `y` grows upwards.
#[derive(Debug, Clone, Copy, PartialEq, Eq, Structural)]
pub struct Coord {
    pub x: i32,
    pub y: i32,
}

/// Whether `a + b` is representable coordinate by coordinate.
pub open spec fn sum_fits(a: Coord, b: Coord) -> bool {
    &&& i32::MIN <= a.x + b.x <= i32::MAX
    &&& i32::MIN <= a.y + b.y <= i32::MAX
}

impl Coord {
    pub fn new(x: i32, y: i32) -> (r: Coord)
        ensures
            r.x == x,
            r.y == y,
    {
        Coord { x, y }
    }

    pub fn x(&self) -> (r: i32)
        ensures
            r == self.x,
    {
        self.x
    }

    pub fn y(&self) -> (r: i32)
        ensures
            r == self.y,
    {
        self.y
    }

    pub fn set_x(&mut self, x: i32)
        ensures
            final(self).x == x,
            final(self).y == old(self).y,
    {
        self.x = x;
    }

    pub fn set_y(&mut self, y: i32)
        ensures
            final(self).x == old(self).x,
            final(self).y == y,
    {
        self.y = y;
    }

    /// Component-wise sum of two coordinates.
    pub fn plus(self, other: Coord) -> (r: Coord)
        requires
            sum_fits(self, other),
        ensures
            r.x == self.x + other.x,
            r.y == self.y + other.y,
    {
        Coord { x: self.x + other.x, y: self.y + other.y }
    }
}

/// Horizontal anchor of an occupant in the terminal.
#[derive(Clone, Copy, Debug, PartialEq, Eq, Structural)]
pub enum XTermPosition {
    Coord(i32),
    LeftOut,
    LeftIn,
    Middle,
    RightOut,
    RightIn,
}

/// Vertical anchor of an occupant in the terminal (row 0 is the bottom).
#[derive(Clone, Copy, Debug, PartialEq, Eq, Structural)]
pub enum YTermPosition {
    Coord(i32),
    BottomOut,
    BottomIn,
    Middle,
    TopOut,
    TopIn,
}

/// A symbolic position, one anchor per axis.
#[derive(Clone, Copy, Debug, PartialEq, Eq, Structural)]
pub struct Position {
    pub x: XTermPosition,
    pub y: YTermPosition,
}

/// Integer division by two, truncating toward zero.
pub open spec fn half_toward_zero(n: int) -> int {
    if n >= 0 {
        n / 2
    } else {
        -((-n) / 2)
    }
}

/// The column an x anchor resolves to.
pub open spec fn resolve_x_spec(a: XTermPosition, term: int, occ: int) -> int {
    match a {
        XTermPosition::Coord(n) => n as int,
        XTermPosition::LeftIn => 0,
        XTermPosition::LeftOut => -1 - occ,
        XTermPosition::Middle => half_toward_zero(term - occ),
        XTermPosition::RightIn => term - occ,
        XTermPosition::RightOut => term,
    }
}

/// The row a y anchor resolves to.
pub open spec fn resolve_y_spec(a: YTermPosition, term: int, occ: int) -> int {
    match a {
        YTermPosition::Coord(n) => n as int,
        YTermPosition::BottomIn => 0,
        YTermPosition::BottomOut => -1 - occ,
        YTermPosition::Middle => half_toward_zero(term - occ),
        YTermPosition::TopIn => term - occ,
        YTermPosition::TopOut => term,
    }
}

/// Sizes small enough that every anchor resolves to an `i32`.
pub open spec fn sizes_fit(terminal_size: Size, sprite_size: Size) -> bool {
    &&& terminal_size.width <= i32::MAX
    &&& terminal_size.height <= i32::MAX
    &&& sprite_size.width <= i32::MAX
    &&& sprite_size.height <= i32::MAX
}

/// Executable counterpart of `half_toward_zero` on values that fit in `i64`.
fn half_toward_zero_exec(n: i64) -> (r: i64)
    requires
        n > i64::MIN,
    ensures
        r == half_toward_zero(n as int),
{
    if n >= 0 {
        n / 2
    } else {
        -((-n) / 2)
    }
}

impl Position {
    pub fn new(x: XTermPosition, y: YTermPosition) -> (r: Position)
        ensures
            r.x == x,
            r.y == y,
    {
        Position { x, y }
    }

    /// The coordinate of this position for an occupant of `sprite_size`
    /// in a terminal of `terminal_size`.
    pub open spec fn resolve_spec(self, terminal_size: Size, sprite_size: Size) -> (int, int) {
        (
            resolve_x_spec(self.x, terminal_size.width as int, sprite_size.width as int),
            resolve_y_spec(self.y, terminal_size.height as int, sprite_size.height as int),
        )
    }

    pub fn resolve(&self, terminal_size: Size, sprite_size: Size) -> (r: Coord)
        requires
            sizes_fit(terminal_size, sprite_size),
        ensures
            (r.x as int, r.y as int) == self.resolve_spec(terminal_size, sprite_size),
    {
        let tw = terminal_size.width as i64;
        let sw = sprite_size.width as i64;
        let th = terminal_size.height as i64;
        let sh = sprite_size.height as i64;
        let x: i32 = match self.x {
            XTermPosition::Coord(n) => n,
            XTermPosition::LeftIn => 0,
            XTermPosition::LeftOut => (-1 - sw) as i32,
            XTermPosition::Middle => half_toward_zero_exec(tw - sw) as i32,
            XTermPosition::RightIn => (tw - sw) as i32,
            XTermPosition::RightOut => tw as i32,
        };
        let y: i32 = match self.y {
            YTermPosition::Coord(n) => n,
            YTermPosition::BottomIn => 0,
            YTermPosition::BottomOut => (-1 - sh) as i32,
            YTermPosition::Middle => half_toward_zero_exec(th - sh) as i32,
            YTermPosition::TopIn => (th - sh) as i32,
            YTermPosition::TopOut => th as i32,
        };
        Coord { x, y }
    }
}

} // verus!
