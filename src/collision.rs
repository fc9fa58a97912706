use vstd::prelude::*;

use crate::coord::Coord;
use crate::engine::Size;

verus! {

/// The rectangle an entity collides with, relative to the entity's coordinate.
#[derive(Clone, Copy, Debug, PartialEq, Eq, Structural)]
pub struct Collider {
    pub offset: Coord,
    pub size: Size,
    pub is_active: bool,
}

/// Lower-left corner of a collider placed at `pos`.
pub open spec fn min_spec(c: Collider, pos: Coord) -> (int, int) {
    (pos.x + c.offset.x, pos.y + c.offset.y)
}

/// Upper-right corner of a collider placed at `pos`.
pub open spec fn max_spec(c: Collider, pos: Coord) -> (int, int) {
    (pos.x + c.offset.x + c.size.width, pos.y + c.offset.y + c.size.height)
}

/// Whether two placed colliders overlap. Along x the test is `<=` then `>`, so
/// the left side of `a` lying on the right side of `b` counts as an overlap while
/// the right side of `a` lying on the left side of `b` does not; along y the test
/// is `<` then `>`, and sides that only touch never count.
pub open spec fn overlap(a_min: (int, int), a_max: (int, int), b_min: (int, int), b_max: (int, int)) -> bool {
    &&& a_min.0 <= b_max.0
    &&& a_max.0 > b_min.0
    &&& a_min.1 < b_max.1
    &&& a_max.1 > b_min.1
}

impl Collider {
    pub fn new(offset: Coord, size: Size, is_active: bool) -> (r: Collider)
        ensures
            r == (Collider { offset, size, is_active }),
    {
        Collider { offset, size, is_active }
    }

    pub fn is_active(&self) -> (r: bool)
        ensures
            r == self.is_active,
    {
        self.is_active
    }

    pub fn set_active(&mut self, enabled: bool)
        ensures
            *final(self) == (Collider { is_active: enabled, ..*old(self) }),
    {
        self.is_active = enabled;
    }

    pub fn size(&self) -> (r: Size)
        ensures
            r == self.size,
    {
        self.size
    }

    pub fn is_null(&self) -> (r: bool)
        ensures
            r == (self.size.width == 0 && self.size.height == 0),
    {
        self.size.height == 0 && self.size.width == 0
    }

    /// Lower-left corner when the owner stands at `sprite_pos`.
    pub fn min(&self, sprite_pos: Coord) -> (r: (i64, i64))
        ensures
            (r.0 as int, r.1 as int) == min_spec(*self, sprite_pos),
    {
        (sprite_pos.x as i64 + self.offset.x as i64, sprite_pos.y as i64 + self.offset.y as i64)
    }

    /// Upper-right corner when the owner stands at `sprite_pos`.
    pub fn max(&self, sprite_pos: Coord) -> (r: (i64, i64))
        ensures
            (r.0 as int, r.1 as int) == max_spec(*self, sprite_pos),
    {
        (
            sprite_pos.x as i64 + self.offset.x as i64 + self.size.width as i64,
            sprite_pos.y as i64 + self.offset.y as i64 + self.size.height as i64,
        )
    }
}

/// Whether the colliders `a` at `pa` and `b` at `pb` overlap.
pub open spec fn colliders_overlap(a: Collider, pa: Coord, b: Collider, pb: Coord) -> bool {
    overlap(min_spec(a, pa), max_spec(a, pa), min_spec(b, pb), max_spec(b, pb))
}

pub fn rects_overlap(a: Collider, pa: Coord, b: Collider, pb: Coord) -> (r: bool)
    ensures
        r == colliders_overlap(a, pa, b, pb),
{
    let a_min = a.min(pa);
    let a_max = a.max(pa);
    let b_min = b.min(pb);
    let b_max = b.max(pb);
    a_min.0 <= b_max.0 && a_max.0 > b_min.0 && a_min.1 < b_max.1 && a_max.1 > b_min.1
}

/// A side of the terminal.
#[derive(Clone, Copy, Debug, PartialEq, Eq, Structural)]
pub enum ScreenEdge {
    Top,
    Left,
    Bottom,
    Right,
}

/// Whether collider `c` at `pos` touches `edge` of a terminal of `terminal_size`:
/// its low side on 0 for the left and bottom edges, its high side exactly on the
/// terminal's dimension for the right and top edges.
pub open spec fn touches_edge(c: Collider, pos: Coord, edge: ScreenEdge, terminal_size: Size) -> bool {
    match edge {
        ScreenEdge::Bottom => min_spec(c, pos).1 == 0,
        ScreenEdge::Left => min_spec(c, pos).0 == 0,
        ScreenEdge::Top => max_spec(c, pos).1 == terminal_size.height,
        ScreenEdge::Right => max_spec(c, pos).0 == terminal_size.width,
    }
}

pub fn edge_touch(c: Collider, pos: Coord, edge: ScreenEdge, terminal_size: Size) -> (r: bool)
    ensures
        r == touches_edge(c, pos, edge, terminal_size),
{
    let lo = c.min(pos);
    let hi = c.max(pos);
    match edge {
        ScreenEdge::Bottom => lo.1 == 0,
        ScreenEdge::Left => lo.0 == 0,
        ScreenEdge::Top => hi.1 == terminal_size.height as i64,
        ScreenEdge::Right => hi.0 == terminal_size.width as i64,
    }
}

/// A watched pair: two entities, or an entity and a side of the terminal. The
/// entities are named by their index in the scene; `action` names the callback
/// that runs on each detection, and `counter` counts the detections.
#[derive(Clone, Copy, Debug, PartialEq, Eq, Structural)]
pub enum Collision {
    Sprite { a: usize, b: usize, counter: usize, action: usize },
    Edge { a: usize, edge: ScreenEdge, counter: usize, action: usize },
}

/// Why evaluating a collision failed.
#[derive(Clone, Copy, Debug, PartialEq, Eq, Structural)]
pub enum CollisionError {
    /// The same entity stands on both sides of a pairwise collision.
    SameSprite,
    /// An entity index is outside the scene.
    UnknownSprite,
}

impl CollisionError {
    pub fn message(&self) -> (r: &'static str)
    {
        match self {
            CollisionError::SameSprite => "Same sprite twice used in the collision handler",
            CollisionError::UnknownSprite => "Collision names a sprite that is not in the scene",
        }
    }
}

/// What happens to a detection counter on a positive detection.
pub open spec fn bumped(n: usize) -> usize {
    if n < usize::MAX {
        (n + 1) as usize
    } else {
        n
    }
}

impl Collision {
    /// A pairwise collision names two different entities.
    pub open spec fn valid(self) -> bool {
        match self {
            Collision::Sprite { a, b, .. } => a != b,
            Collision::Edge { .. } => true,
        }
    }

    /// A pairwise collision between two different entities; naming one entity
    /// twice is an authoring error.
    pub fn new_sprite(a: usize, b: usize, action: usize) -> (r: Collision)
        requires
            a != b,
        ensures
            r == (Collision::Sprite { a, b, counter: 0, action }),
    {
        Collision::Sprite { a, b, counter: 0, action }
    }

    pub fn new_edge(a: usize, b: ScreenEdge, action: usize) -> (r: Collision)
        ensures
            r == (Collision::Edge { a, edge: b, counter: 0, action }),
    {
        Collision::Edge { a, edge: b, counter: 0, action }
    }

    pub open spec fn counter_spec(&self) -> usize {
        match self {
            Collision::Sprite { counter, .. } => *counter,
            Collision::Edge { counter, .. } => *counter,
        }
    }

    pub fn counter(&self) -> (r: usize)
        ensures
            r == self.counter_spec(),
    {
        match self {
            Collision::Sprite { counter, .. } => *counter,
            Collision::Edge { counter, .. } => *counter,
        }
    }

    pub open spec fn action_spec(&self) -> usize {
        match self {
            Collision::Sprite { action, .. } => *action,
            Collision::Edge { action, .. } => *action,
        }
    }

    pub fn action(&self) -> (r: usize)
        ensures
            r == self.action_spec(),
    {
        match self {
            Collision::Sprite { action, .. } => *action,
            Collision::Edge { action, .. } => *action,
        }
    }

    /// The same collision with its counter bumped.
    pub open spec fn bump(self) -> Collision {
        match self {
            Collision::Sprite { a, b, counter, action } => Collision::Sprite {
                a,
                b,
                counter: bumped(counter),
                action,
            },
            Collision::Edge { a, edge, counter, action } => Collision::Edge {
                a,
                edge,
                counter: bumped(counter),
                action,
            },
        }
    }

    pub fn increment(&mut self)
        ensures
            *final(self) == old(self).bump(),
    {
        match self {
            Collision::Sprite { counter, .. } => {
                if *counter < usize::MAX {
                    *counter = *counter + 1;
                }
            },
            Collision::Edge { counter, .. } => {
                if *counter < usize::MAX {
                    *counter = *counter + 1;
                }
            },
        }
    }
}

} // verus!
