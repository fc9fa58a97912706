use vstd::prelude::*;
use vstd::string::*;

use crate::collision::{
    colliders_overlap, edge_touch, rects_overlap, touches_edge, Collision, CollisionError,
};
use crate::coord::Coord;
use crate::engine::Size;
use crate::frame::{lines_of, Frame};
use crate::sprite::Sprite;
use crate::trajectory::{
    abs, clamp_i32, layered, resolved, shift, shifted, Direction, Trajectory,
};

verus! {

/// Why the paths of a scene could not be computed.
#[derive(Clone, Copy, Debug, PartialEq, Eq, Structural)]
pub enum SceneError {
    /// A relative trajectory has no parent, or one outside the scene.
    MissingParent,
    /// Relative trajectories follow each other in a cycle.
    ParentCycle,
    /// A path would hold more points than memory can index.
    PathTooLong,
}

impl SceneError {
    pub fn message(&self) -> (r: &'static str) {
        match self {
            SceneError::MissingParent => "No parent sprite",
            SceneError::ParentCycle => "Relative sprites follow each other in a cycle",
            SceneError::PathTooLong => "Path too long",
        }
    }
}

/// Where entity `i` stands: a relative entity stands at its parent's place moved
/// by its offset, any other at the point under its trajectory's cursor. `fuel`
/// bounds the length of the parent chain that is followed.
pub open spec fn place(sprites: Seq<Sprite>, i: int, fuel: nat) -> Coord
    decreases fuel,
{
    let t = sprites[i].trajectory;
    if fuel > 0 && t.direction == Direction::Relative && t.parent is Some && t.parent->0
        < sprites.len() {
        shift(place(sprites, t.parent->0 as int, (fuel - 1) as nat), t.offset)
    } else {
        t.current_spec()
    }
}

/// The outcome of evaluating collision `c` on `sprites`.
pub open spec fn detect(sprites: Seq<Sprite>, c: Collision, terminal_size: Size) -> Result<
    bool,
    CollisionError,
> {
    let n = sprites.len();
    match c {
        Collision::Sprite { a, b, .. } => {
            if a == b {
                Err(CollisionError::SameSprite)
            } else if a >= n || b >= n {
                Err(CollisionError::UnknownSprite)
            } else if !(sprites[a as int].collider.is_active && sprites[b as int].collider.is_active) {
                Ok(false)
            } else {
                Ok(
                    colliders_overlap(
                        sprites[a as int].collider,
                        place(sprites, a as int, n),
                        sprites[b as int].collider,
                        place(sprites, b as int, n),
                    ),
                )
            }
        },
        Collision::Edge { a, edge, .. } => {
            if a >= n {
                Err(CollisionError::UnknownSprite)
            } else if !sprites[a as int].collider.is_active {
                Ok(false)
            } else {
                Ok(
                    touches_edge(
                        sprites[a as int].collider,
                        place(sprites, a as int, n),
                        edge,
                        terminal_size,
                    ),
                )
            }
        },
    }
}

/// Entity `a` is drawn before entity `b`: lower layer first, and on the same
/// layer in index order.
pub open spec fn drawn_before(sprites: Seq<Sprite>, a: int, b: int) -> bool {
    ||| sprites[a].layer < sprites[b].layer
    ||| (sprites[a].layer == sprites[b].layer && a < b)
}

/// `order` lists every entity index once, in drawing order.
pub open spec fn is_draw_order(sprites: Seq<Sprite>, order: Seq<usize>) -> bool {
    &&& order.len() == sprites.len()
    &&& forall|i: int| 0 <= i < order.len() ==> order[i] < sprites.len()
    &&& forall|i: int, j: int|
        0 <= i < j < order.len() ==> drawn_before(sprites, order[i] as int, order[j] as int)
}

/// The character at cell `idx` of a `w`-wide, `h`-high row-major screen whose
/// previous character was `old`, once a picture of `lines` is drawn with its
/// bottom-left corner at column `x`, row `y` (rows count upwards from the bottom
/// of the screen, the first screen row is the top one). Spaces are transparent.
pub open spec fn drawn_cell(
    old: char,
    lines: Seq<Seq<char>>,
    x: int,
    y: int,
    w: int,
    h: int,
    idx: int,
) -> char {
    let row = idx / w;
    let col = idx % w;
    let li = lines.len() - 1 - (h - 1 - row - y);
    let dx = col - x;
    if 0 <= li < lines.len() && 0 <= dx < lines[li].len() && lines[li][dx] != ' ' {
        lines[li][dx]
    } else {
        old
    }
}

/// The screen `screen` with the picture drawn on it.
pub open spec fn drawn(
    screen: Seq<char>,
    lines: Seq<Seq<char>>,
    x: int,
    y: int,
    w: int,
    h: int,
) -> Seq<char> {
    Seq::new(screen.len(), |idx: int| drawn_cell(screen[idx], lines, x, y, w, h, idx))
}

/// Draw a picture of `lines` onto a row-major screen of `w` by `h` cells.
pub fn blit(screen: &mut Vec<char>, lines: &Vec<Vec<char>>, x: i32, y: i32, w: u32, h: u32)
    requires
        old(screen)@.len() == w * h,
        w > 0,
        lines@.len() <= i32::MAX,
    ensures
        final(screen)@ == drawn(
            old(screen)@,
            lines@.map_values(|l: Vec<char>| l@),
            x as int,
            y as int,
            w as int,
            h as int,
        ),
{
    let ghost lv = lines@.map_values(|l: Vec<char>| l@);
    let ghost orig = screen@;
    let total = screen.len();
    let nl = lines.len() as i64;
    let mut idx: usize = 0;
    while idx < total
        invariant
            total == screen@.len(),
            orig.len() == total,
            total == w * h,
            w > 0,
            nl == lines@.len(),
            nl <= i32::MAX,
            lv == lines@.map_values(|l: Vec<char>| l@),
            idx <= total,
            forall|j: int|
                0 <= j < total ==> #[trigger] screen@[j] == if j < idx {
                    drawn_cell(orig[j], lv, x as int, y as int, w as int, h as int, j)
                } else {
                    orig[j]
                },
        decreases total - idx,
    {
        let row = idx / (w as usize);
        let col = idx % (w as usize);
        proof {
            let (ri, ii, wi, hi) = (row as int, idx as int, w as int, h as int);
            assert(ri <= hi) by (nonlinear_arith)
                requires
                    ri == ii / wi,
                    ii < wi * hi,
                    wi > 0,
            ;
        }
        let li: i64 = nl - 1 - (h as i64 - 1 - row as i64 - y as i64);
        let dx: i64 = col as i64 - x as i64;
        assert(row as int == (idx as int) / (w as int));
        assert(col as int == (idx as int) % (w as int));
        assert(lv.len() == nl);
        assert(screen@[idx as int] == orig[idx as int]);
        let ghost target = drawn_cell(orig[idx as int], lv, x as int, y as int, w as int, h as int, idx as int);
        let ghost sli = lv.len() - 1 - (h - 1 - (idx as int) / (w as int) - y);
        let ghost sdx = (idx as int) % (w as int) - x;
        assert(sli == li as int);
        assert(sdx == dx as int);
        if 0 <= li && li < nl {
            let line = &lines[li as usize];
            assert(lv[li as int] == line@);
            if 0 <= dx && (dx as u128) < (line.len() as u128) {
                let c = line[dx as usize];
                if c != ' ' {
                    screen.set(idx, c);
                }
            }
        }
        assert(screen@[idx as int] == target);
        idx = idx + 1;
    }
    proof {
        assert(screen@ =~= drawn(orig, lv, x as int, y as int, w as int, h as int));
    }
}

/// The characters of `s`.
pub fn chars_of(s: &str) -> (r: Vec<char>)
    ensures
        r@ == s@,
{
    let n = s.unicode_len();
    let mut out: Vec<char> = Vec::new();
    let mut i: usize = 0;
    while i < n
        invariant
            n == s@.len(),
            i <= n,
            out@ == s@.take(i as int),
        decreases n - i,
    {
        out.push(s.get_char(i));
        i = i + 1;
        assert(out@ =~= s@.take(i as int));
    }
    assert(s@.take(i as int) =~= s@);
    out
}

/// The lines of a frame as character vectors.
pub fn frame_rows(frame: &Frame) -> (r: Vec<Vec<char>>)
    ensures
        r@.map_values(|l: Vec<char>| l@) == lines_of(frame.ascii@),
{
    let lines = frame.get_lines();
    let ghost target = lines_of(frame.ascii@);
    let mut out: Vec<Vec<char>> = Vec::new();
    let mut i: usize = 0;
    while i < lines.len()
        invariant
            i <= lines@.len(),
            lines@.map_values(|l: String| l@) == target,
            out@.map_values(|l: Vec<char>| l@) == target.take(i as int),
        decreases lines@.len() - i,
    {
        let row = chars_of(lines[i].as_str());
        assert(target[i as int] == lines@[i as int]@);
        let ghost prev = out@;
        out.push(row);
        assert(out@.map_values(|l: Vec<char>| l@) =~= prev.map_values(|l: Vec<char>| l@).push(row@));
        i = i + 1;
        assert(out@.map_values(|l: Vec<char>| l@) =~= target.take(i as int));
    }
    assert(target.take(i as int) =~= target);
    out
}

/// A screen of `w` by `h` spaces.
pub fn blank_screen(w: u32, h: u32) -> (r: Vec<char>)
    requires
        w * h <= usize::MAX,
    ensures
        r@ == Seq::new((w * h) as nat, |i: int| ' '),
{
    let n = (w as usize) * (h as usize);
    let mut out: Vec<char> = Vec::new();
    let mut i: usize = 0;
    while i < n
        invariant
            n == w * h,
            i <= n,
            out@ == Seq::new(i as nat, |k: int| ' '),
        decreases n - i,
    {
        out.push(' ');
        i = i + 1;
        assert(out@ =~= Seq::new(i as nat, |k: int| ' '));
    }
    out
}

/// The collision outcomes of a scene, one per registered collision.
pub open spec fn fired_all(sprites: Seq<Sprite>, cs: Seq<Collision>, ts: Size) -> bool {
    forall|i: int| 0 <= i < cs.len() ==> (#[trigger] detect(sprites, cs[i], ts)) is Ok
}

/// Whether every visible entity lets the scene end.
pub open spec fn all_done_spec(sprites: Seq<Sprite>) -> bool {
    forall|i: int| 0 <= i < sprites.len() ==> (#[trigger] sprites[i]).visible ==> sprites[i].done_spec()
}

/// No clock of any entity started after `tick`.
pub open spec fn clocks_before(sprites: Seq<Sprite>, tick: usize) -> bool {
    forall|i: int|
        0 <= i < sprites.len() ==> {
            &&& (#[trigger] sprites[i]).trajectory.started_tick_id matches Some(s) ==> s <= tick
            &&& sprites[i].animation.started_tick_id matches Some(s) ==> s <= tick
        }
}

/// Entities and screen after drawing the entities `order[k..]`: each visible one
/// is stepped to `tick`, then its current frame is drawn where it then stands.
pub open spec fn render_from(
    sprites: Seq<Sprite>,
    screen: Seq<char>,
    order: Seq<usize>,
    k: int,
    tick: usize,
    ts: Size,
) -> (Seq<Sprite>, Seq<char>)
    decreases order.len() - k,
{
    if k < 0 || k >= order.len() {
        (sprites, screen)
    } else {
        let id = order[k] as int;
        if !sprites[id].visible {
            render_from(sprites, screen, order, k + 1, tick, ts)
        } else {
            let s2 = sprites.update(id, sprites[id].advanced(tick, ts));
            let a = s2[id].animation;
            let scr2 = if a.frames@.len() > 0 {
                let pos = place(s2, id, s2.len());
                drawn(
                    screen,
                    lines_of(a.frames@[a.current_frame_id as int].ascii@),
                    pos.x as int,
                    pos.y as int,
                    ts.width as int,
                    ts.height as int,
                )
            } else {
                screen
            };
            render_from(s2, scr2, order, k + 1, tick, ts)
        }
    }
}

/// Whether entity `id` holds the path its trajectory prescribes: a relative one
/// its parent's path moved by its offset, any other the path of its own kind,
/// for a terminal of `ts`, moved by its offset.
pub open spec fn settled(sprites: Seq<Sprite>, ts: Size, id: int) -> bool {
    let s = sprites[id];
    let t = s.trajectory;
    if t.direction == Direction::Relative {
        &&& t.parent matches Some(p) && p < sprites.len()
        &&& t.path@ == shifted(sprites[t.parent->0 as int].trajectory.path@, t.offset)
    } else {
        t.path@ == shifted(t.base_path(ts, s.size_spec()), t.offset)
    }
}

/// What recomputing the path of entity `id` gives, following at most `fuel`
/// parents: a relative entity needs a parent in the scene, other than itself,
/// and whatever that parent needs; any other entity needs its path to fit.
pub open spec fn path_outcome(sprites: Seq<Sprite>, ts: Size, id: int, fuel: nat) -> Result<
    (),
    SceneError,
>
    decreases fuel,
{
    let s = sprites[id];
    let t = s.trajectory;
    if t.direction == Direction::Relative {
        match t.parent {
            None => Err(SceneError::MissingParent),
            Some(p) => {
                if p >= sprites.len() {
                    Err(SceneError::MissingParent)
                } else if p as int == id || fuel == 0 {
                    Err(SceneError::ParentCycle)
                } else {
                    path_outcome(sprites, ts, p as int, (fuel - 1) as nat)
                }
            },
        }
    } else if t.path_fits(ts, s.size_spec()) {
        Ok(())
    } else {
        Err(SceneError::PathTooLong)
    }
}

/// What recomputing the paths of entities `i..` in index order gives: the
/// outcome of the first that fails, if any. With the number of entities as fuel,
/// a chain of parents runs out of fuel only when it loops.
pub open spec fn paths_outcome(sprites: Seq<Sprite>, ts: Size, i: int) -> Result<(), SceneError>
    decreases sprites.len() - i,
{
    if i < 0 || i >= sprites.len() {
        Ok(())
    } else {
        match path_outcome(sprites, ts, i, sprites.len() as nat) {
            Err(e) => Err(e),
            Ok(()) => paths_outcome(sprites, ts, i + 1),
        }
    }
}

/// Other paths do not change what recomputing a path gives.
pub proof fn lemma_outcome_ignores_paths(
    a: Seq<Sprite>,
    b: Seq<Sprite>,
    ts: Size,
    id: int,
    fuel: nat,
)
    requires
        only_paths_changed(a, b),
        0 <= id < a.len(),
    ensures
        path_outcome(a, ts, id, fuel) == path_outcome(b, ts, id, fuel),
    decreases fuel,
{
    assert(b[id] == with_path(a[id], b[id].trajectory.path));
    let t = a[id].trajectory;
    if t.direction == Direction::Relative && t.parent is Some && t.parent->0 < a.len() && t.parent->0
        != id && fuel > 0 {
        lemma_outcome_ignores_paths(a, b, ts, t.parent->0 as int, (fuel - 1) as nat);
    }
}

/// The collisions detected among `cs[..k]`, in index order, each with its
/// counter after the detection.
pub open spec fn fired_upto(sprites: Seq<Sprite>, cs: Seq<Collision>, ts: Size, k: int) -> Seq<
    (usize, usize),
>
    decreases k,
{
    if k <= 0 {
        Seq::empty()
    } else {
        let prev = fired_upto(sprites, cs, ts, k - 1);
        if detect(sprites, cs[k - 1], ts) == Ok::<bool, CollisionError>(true) {
            prev.push(((k - 1) as usize, cs[k - 1].bump().counter_spec()))
        } else {
            prev
        }
    }
}

/// The entities and collisions of one run, with the terminal they are drawn in.
pub struct Scene {
    pub terminal_size: Size,
    pub sprites: Vec<Sprite>,
    pub collisions: Vec<Collision>,
}

/// The same entity with another path.
pub open spec fn with_path(s: Sprite, p: Vec<Coord>) -> Sprite {
    Sprite { trajectory: Trajectory { path: p, ..s.trajectory }, ..s }
}

/// `b` is `a` with, at most, other paths.
pub open spec fn only_paths_changed(a: Seq<Sprite>, b: Seq<Sprite>) -> bool {
    &&& a.len() == b.len()
    &&& forall|j: int| 0 <= j < a.len() ==> #[trigger] b[j] == with_path(a[j], b[j].trajectory.path)
}

impl Scene {
    pub open spec fn wf(&self) -> bool {
        &&& self.terminal_size.width <= i32::MAX
        &&& self.terminal_size.height <= i32::MAX
        &&& forall|i: int| 0 <= i < self.sprites@.len() ==> (#[trigger] self.sprites@[i]).wf()
    }

    /// No pairwise collision names one entity twice.
    pub open spec fn collisions_valid(&self) -> bool {
        forall|i: int| 0 <= i < self.collisions@.len() ==> (#[trigger] self.collisions@[i]).valid()
    }

    pub fn new(terminal_size: Size) -> (r: Scene)
        ensures
            r.terminal_size == terminal_size,
            r.sprites@.len() == 0,
            r.collisions@.len() == 0,
    {
        Scene { terminal_size, sprites: Vec::new(), collisions: Vec::new() }
    }

    /// Add an entity; its index names it from then on.
    pub fn add_sprite(&mut self, sprite: Sprite) -> (r: usize)
        requires
            old(self).wf(),
            sprite.wf(),
        ensures
            final(self).wf(),
            r == old(self).sprites@.len(),
            final(self).sprites@ == old(self).sprites@.push(sprite),
            final(self).collisions@ == old(self).collisions@,
            final(self).terminal_size == old(self).terminal_size,
    {
        let r = self.sprites.len();
        self.sprites.push(sprite);
        r
    }

    /// Add a collision; its index names it from then on.
    pub fn add_collision(&mut self, collision: Collision) -> (r: usize)
        requires
            old(self).collisions_valid(),
            collision.valid(),
        ensures
            final(self).collisions_valid(),
            r == old(self).collisions@.len(),
            final(self).collisions@ == old(self).collisions@.push(collision),
            final(self).sprites@ == old(self).sprites@,
            final(self).terminal_size == old(self).terminal_size,
    {
        let r = self.collisions.len();
        self.collisions.push(collision);
        r
    }

    /// Where entity `i` stands now.
    pub fn coordinate_of(&self, i: usize) -> (r: Coord)
        requires
            i < self.sprites@.len(),
        ensures
            r == place(self.sprites@, i as int, self.sprites@.len() as nat),
    {
        self.place_with_fuel(i, self.sprites.len())
    }

    fn place_with_fuel(&self, i: usize, fuel: usize) -> (r: Coord)
        requires
            i < self.sprites@.len(),
        ensures
            r == place(self.sprites@, i as int, fuel as nat),
        decreases fuel,
    {
        let t = &self.sprites[i].trajectory;
        if fuel > 0 && t.direction == Direction::Relative {
            match t.parent {
                Some(p) => {
                    if p < self.sprites.len() {
                        let c = self.place_with_fuel(p, fuel - 1);
                        return Coord {
                            x: clamp_add(c.x, t.offset.x),
                            y: clamp_add(c.y, t.offset.y),
                        };
                    }
                },
                None => {},
            }
        }
        t.current_coordinate()
    }

    /// Whether entity `id` holds the path its trajectory prescribes.
    pub open spec fn path_settled(&self, id: int) -> bool {
        settled(self.sprites@, self.terminal_size, id)
    }

    /// Recompute the path of entity `id`, and first, for a relative entity, the
    /// path of the entities it follows, up to `fuel` of them.
    pub fn compute_path_of(&mut self, id: usize, fuel: usize) -> (r: Result<(), SceneError>)
        requires
            old(self).wf(),
            id < old(self).sprites@.len(),
        ensures
            final(self).wf(),
            only_paths_changed(old(self).sprites@, final(self).sprites@),
            final(self).collisions@ == old(self).collisions@,
            final(self).terminal_size == old(self).terminal_size,
            r is Ok ==> final(self).path_settled(id as int),
            forall|j: int|
                0 <= j < old(self).sprites@.len() && old(self).sprites@[j].trajectory.direction
                    != Direction::Relative ==> (#[trigger] final(self).sprites@[j]).trajectory.path@
                    == old(self).sprites@[j].trajectory.path@ || final(self).path_settled(j),
            r == path_outcome(old(self).sprites@, old(self).terminal_size, id as int, fuel as nat),
        decreases fuel,
    {
        let ts = self.terminal_size;
        let n = self.sprites.len();
        if self.sprites[id].trajectory.direction == Direction::Relative {
            let p = match self.sprites[id].trajectory.parent {
                Some(p) => p,
                None => {
                    return Err(SceneError::MissingParent);
                },
            };
            if p >= n {
                return Err(SceneError::MissingParent);
            }
            if p == id || fuel == 0 {
                return Err(SceneError::ParentCycle);
            }
            let ghost before = self.sprites@;
            assert(before == old(self).sprites@);
            let r = self.compute_path_of(p, fuel - 1);
            match r {
                Err(e) => {
                    assert(only_paths_changed(old(self).sprites@, self.sprites@));
                    return Err(e);
                },
                Ok(()) => {},
            }
            assert(path_outcome(before, ts, id as int, fuel as nat) == path_outcome(
                before,
                ts,
                p as int,
                (fuel - 1) as nat,
            ));
            let ghost mid = self.sprites@;
            assert(mid[id as int] == with_path(before[id as int], mid[id as int].trajectory.path));
            let pp = self.sprites[p].trajectory.path();
            self.sprites[id].trajectory.compute_relative_path(&pp);
            proof {
                assert forall|j: int|
                    0 <= j < before.len() && before[j].trajectory.direction != Direction::Relative
                        implies (#[trigger] self.sprites@[j]).trajectory.path@
                        == before[j].trajectory.path@ || self.path_settled(j) by {
                    assert(mid[j] == with_path(before[j], mid[j].trajectory.path));
                    assert(j != id);
                    assert(self.sprites@[j] == mid[j]);
                }
                assert forall|j: int| 0 <= j < self.sprites@.len() implies #[trigger] self.sprites@[j]
                    == with_path(before[j], self.sprites@[j].trajectory.path) by {
                    assert(mid[j] == with_path(before[j], mid[j].trajectory.path));
                }
                assert forall|i: int| 0 <= i < self.sprites@.len() implies (
                #[trigger] self.sprites@[i]).wf() by {
                    assert(mid[i].wf());
                }
            }
            r
        } else {
            let size = self.sprites[id].size();
            if !path_fits_exec(&self.sprites[id].trajectory, ts, size) {
                return Err(SceneError::PathTooLong);
            }
            let ghost before = self.sprites@;
            assert(path_outcome(before, ts, id as int, fuel as nat) == Ok::<(), SceneError>(()));
            self.sprites[id].compute_path(ts);
            proof {
                assert forall|j: int| 0 <= j < self.sprites@.len() implies #[trigger] self.sprites@[j]
                    == with_path(before[j], self.sprites@[j].trajectory.path) by {}
                assert forall|i: int| 0 <= i < self.sprites@.len() implies (
                #[trigger] self.sprites@[i]).wf() by {
                    assert(before[i].wf());
                }
                assert(path_outcome(old(self).sprites@, old(self).terminal_size, id as int, fuel as nat)
                    == Ok::<(), SceneError>(()));
            }
            Ok(())
        }
    }

    /// Recompute the path of every entity, in index order.
    pub fn compute_paths(&mut self) -> (r: Result<(), SceneError>)
        requires
            old(self).wf(),
        ensures
            final(self).wf(),
            r == paths_outcome(old(self).sprites@, old(self).terminal_size, 0),
            r is Ok ==> forall|j: int|
                0 <= j < final(self).sprites@.len() && (#[trigger] final(self).sprites@[j]).trajectory.direction
                    != Direction::Relative ==> final(self).path_settled(j),
            only_paths_changed(old(self).sprites@, final(self).sprites@),
            final(self).collisions@ == old(self).collisions@,
            final(self).terminal_size == old(self).terminal_size,
    {
        let ghost orig = self.sprites@;
        let n = self.sprites.len();
        let mut i: usize = 0;
        while i < n
            invariant
                self.wf(),
                n == self.sprites@.len(),
                i <= n,
                orig == old(self).sprites@,
                only_paths_changed(orig, self.sprites@),
                paths_outcome(orig, self.terminal_size, 0) == paths_outcome(orig, self.terminal_size, i as int),
                forall|j: int|
                    0 <= j < i && (#[trigger] self.sprites@[j]).trajectory.direction
                        != Direction::Relative ==> self.path_settled(j),
                self.collisions@ == old(self).collisions@,
                self.terminal_size == old(self).terminal_size,
            decreases n - i,
        {
            let ghost before = self.sprites@;
            let r = self.compute_path_of(i, n);
            proof {
                lemma_outcome_ignores_paths(orig, before, self.terminal_size, i as int, n as nat);
                assert forall|j: int| 0 <= j < self.sprites@.len() implies #[trigger] self.sprites@[j]
                    == with_path(orig[j], self.sprites@[j].trajectory.path) by {
                    assert(before[j] == with_path(orig[j], before[j].trajectory.path));
                    assert(self.sprites@[j] == with_path(before[j], self.sprites@[j].trajectory.path));
                }
                assert forall|j: int|
                    0 <= j < i && (#[trigger] self.sprites@[j]).trajectory.direction
                        != Direction::Relative implies self.path_settled(j) by {
                    assert(self.sprites@[j] == with_path(before[j], self.sprites@[j].trajectory.path));
                    assert(before[j].trajectory.direction != Direction::Relative);
                }
            }
            if r.is_err() {
                return r;
            }
            i = i + 1;
        }
        Ok(())
    }

    /// Entity indices in drawing order: by ascending layer, ties in index order.
    pub fn draw_order(&self) -> (r: Vec<usize>)
        ensures
            is_draw_order(self.sprites@, r@),
    {
        let ghost sp = self.sprites@;
        let n = self.sprites.len();
        let mut order: Vec<usize> = Vec::new();
        let mut k: usize = 0;
        while k < n
            invariant
                sp == self.sprites@,
                n == sp.len(),
                k <= n,
                order@.len() == k,
                forall|i: int| 0 <= i < order@.len() ==> order@[i] < k,
                forall|i: int, j: int|
                    0 <= i < j < order@.len() ==> drawn_before(sp, order@[i] as int, order@[j] as int),
            decreases n - k,
        {
            let layer = self.sprites[k].layer;
            let mut p: usize = 0;
            while p < order.len() && self.sprites[order[p]].layer <= layer
                invariant
                    sp == self.sprites@,
                    n == sp.len(),
                    k < n,
                    p <= order@.len(),
                    layer == sp[k as int].layer,
                    forall|i: int| 0 <= i < order@.len() ==> order@[i] < k,
                    forall|q: int| 0 <= q < p ==> sp[order@[q] as int].layer <= layer,
                decreases order@.len() - p,
            {
                p = p + 1;
            }
            let ghost before = order@;
            order.insert(p, k);
            proof {
                assert forall|i: int, j: int|
                    0 <= i < j < order@.len() implies drawn_before(
                    sp,
                    order@[i] as int,
                    order@[j] as int,
                ) by {
                    if p < before.len() {
                        assert(sp[before[p as int] as int].layer > layer);
                    }
                    if j > p as int && i < p as int {
                        assert(drawn_before(sp, before[i] as int, before[j - 1] as int));
                    }
                    if i == p as int && j > p as int && j - 1 > p as int {
                        assert(drawn_before(sp, before[p as int] as int, before[j - 1] as int));
                    }
                    if i > p as int {
                        assert(drawn_before(sp, before[i - 1] as int, before[j - 1] as int));
                    }
                }
            }
            k = k + 1;
        }
        order
    }

    /// Whether every visible entity lets the scene end.
    pub fn all_done(&self) -> (r: bool)
        ensures
            r == all_done_spec(self.sprites@),
    {
        let mut i: usize = 0;
        while i < self.sprites.len()
            invariant
                i <= self.sprites@.len(),
                forall|j: int| 0 <= j < i ==> (#[trigger] self.sprites@[j]).visible ==> self.sprites@[j].done_spec(),
            decreases self.sprites@.len() - i,
        {
            if self.sprites[i].visible && !self.sprites[i].is_done() {
                return false;
            }
            i = i + 1;
        }
        true
    }

    /// Evaluate every collision in turn and list those detected, each with its
    /// counter after the detection. Fails, at the first one, when a collision
    /// cannot be evaluated.
    pub fn process_collisions(&mut self) -> (r: Result<Vec<(usize, usize)>, CollisionError>)
        requires
            old(self).collisions_valid(),
        ensures
            final(self).collisions_valid(),
            final(self).sprites@ == old(self).sprites@,
            final(self).terminal_size == old(self).terminal_size,
            final(self).collisions@.len() == old(self).collisions@.len(),
            r is Ok <==> fired_all(old(self).sprites@, old(self).collisions@, old(self).terminal_size),
            r is Ok ==> forall|i: int|
                0 <= i < old(self).collisions@.len() ==> #[trigger] final(self).collisions@[i] == if detect(
                    old(self).sprites@,
                    old(self).collisions@[i],
                    old(self).terminal_size,
                ) == Ok::<bool, CollisionError>(true) {
                    old(self).collisions@[i].bump()
                } else {
                    old(self).collisions@[i]
                },
            r matches Ok(fired) ==> fired@ == fired_upto(
                old(self).sprites@,
                old(self).collisions@,
                old(self).terminal_size,
                old(self).collisions@.len() as int,
            ),
    {
        let ghost orig = self.collisions@;
        let n = self.collisions.len();
        let mut fired: Vec<(usize, usize)> = Vec::new();
        let mut i: usize = 0;
        while i < n
            invariant
                n == self.collisions@.len(),
                orig.len() == n,
                orig == old(self).collisions@,
                self.sprites@ == old(self).sprites@,
                self.terminal_size == old(self).terminal_size,
                i <= n,
                forall|j: int| 0 <= j < i ==> (#[trigger] detect(self.sprites@, orig[j], self.terminal_size)) is Ok,
                forall|j: int|
                    0 <= j < n ==> #[trigger] self.collisions@[j] == if j < i && detect(
                        self.sprites@,
                        orig[j],
                        self.terminal_size,
                    ) == Ok::<bool, CollisionError>(true) {
                        orig[j].bump()
                    } else {
                        orig[j]
                    },
                fired@ == fired_upto(self.sprites@, orig, self.terminal_size, i as int),
                forall|j: int| 0 <= j < n ==> (#[trigger] orig[j]).valid(),
            decreases n - i,
        {
            assert(self.collisions@[i as int] == orig[i as int]);
            let r = self.check_collision(i);
            match r {
                Err(e) => {
                    proof {
                        assert(detect(self.sprites@, orig[i as int], self.terminal_size) is Err);
                    }
                    return Err(e);
                },
                Ok(hit) => {
                    if hit {
                        let c = self.collisions[i].counter();
                        fired.push((i, c));
                    }
                },
            }
            i = i + 1;
        }
        proof {
            assert forall|j: int| 0 <= j < n implies (#[trigger] self.collisions@[j]).valid() by {
                assert(orig[j].valid());
            }
        }
        Ok(fired)
    }

    /// One tick of drawing: recompute every path, then, in drawing order, step
    /// each visible entity to `tick` and draw its current frame where it stands.
    /// Returns the composited screen, row-major, top row first.
    pub fn render_tick(&mut self, tick: usize) -> (r: Result<Vec<char>, SceneError>)
        requires
            old(self).wf(),
            clocks_before(old(self).sprites@, tick),
            tick < usize::MAX,
            old(self).terminal_size.width * old(self).terminal_size.height <= usize::MAX,
        ensures
            r is Ok <==> paths_outcome(old(self).sprites@, old(self).terminal_size, 0) is Ok,
            r matches Err(e) ==> paths_outcome(old(self).sprites@, old(self).terminal_size, 0)
                == Err::<(), SceneError>(e),
            final(self).wf(),
            clocks_before(final(self).sprites@, tick),
            final(self).sprites@.len() == old(self).sprites@.len(),
            final(self).collisions@ == old(self).collisions@,
            final(self).terminal_size == old(self).terminal_size,
            r matches Ok(screen) ==> screen@.len() == old(self).terminal_size.width
                * old(self).terminal_size.height,
            r matches Ok(screen) ==> exists|mid: Seq<Sprite>, order: Seq<usize>|
                {
                    &&& only_paths_changed(old(self).sprites@, mid)
                    &&& forall|j: int|
                        0 <= j < mid.len() && (#[trigger] mid[j]).trajectory.direction
                            != Direction::Relative ==> settled(mid, old(self).terminal_size, j)
                    &&& is_draw_order(mid, order)
                    &&& (final(self).sprites@, screen@) == render_from(
                        mid,
                        Seq::new(
                            (old(self).terminal_size.width * old(self).terminal_size.height) as nat,
                            |i: int| ' ',
                        ),
                        order,
                        0,
                        tick,
                        old(self).terminal_size,
                    )
                },
    {
        let ghost orig = self.sprites@;
        let res = self.compute_paths();
        proof {
            assert forall|i: int| 0 <= i < self.sprites@.len() implies {
                &&& (#[trigger] self.sprites@[i]).trajectory.started_tick_id matches Some(s) ==> s <= tick
                &&& self.sprites@[i].animation.started_tick_id matches Some(s) ==> s <= tick
            } by {
                assert(self.sprites@[i] == with_path(orig[i], self.sprites@[i].trajectory.path));
            }
        }
        match res {
            Err(e) => {
                return Err(e);
            },
            Ok(()) => {},
        }
        let w = self.terminal_size.width;
        let h = self.terminal_size.height;
        let order = self.draw_order();
        let mut screen = blank_screen(w, h);
        let ghost mid = self.sprites@;
        let ghost blank = screen@;
        let ts = self.terminal_size;
        let n = self.sprites.len();
        let mut k: usize = 0;
        while k < order.len()
            invariant
                self.wf(),
                ts == self.terminal_size,
                render_from(mid, blank, order@, 0, tick, ts) == render_from(
                    self.sprites@,
                    screen@,
                    order@,
                    k as int,
                    tick,
                    ts,
                ),
                n == self.sprites@.len(),
                order@.len() == n,
                forall|i: int| 0 <= i < order@.len() ==> order@[i] < n,
                clocks_before(self.sprites@, tick),
                tick < usize::MAX,
                screen@.len() == w * h,
                w == self.terminal_size.width,
                h == self.terminal_size.height,
                self.collisions@ == old(self).collisions@,
                self.terminal_size == old(self).terminal_size,
            decreases order@.len() - k,
        {
            let id = order[k];
            let ghost before_scr = screen@;
            if self.sprites[id].visible {
                let ghost before = self.sprites@;
                self.sprites[id].advance(tick, ts);
                assert(self.sprites@ == before.update(id as int, before[id as int].advanced(tick, ts)));
                proof {
                    assert forall|i: int| 0 <= i < self.sprites@.len() implies (#[trigger] self.sprites@[i]).wf() by {
                        assert(before[i].wf());
                    }
                    assert forall|i: int| 0 <= i < self.sprites@.len() implies {
                        &&& (#[trigger] self.sprites@[i]).trajectory.started_tick_id matches Some(s) ==> s <= tick
                        &&& self.sprites@[i].animation.started_tick_id matches Some(s) ==> s <= tick
                    } by {
                        assert(before[i].trajectory.started_tick_id matches Some(s) ==> s <= tick);
                    }
                }
                if self.sprites[id].animation.frames.len() > 0 {
                    let pos = self.coordinate_of(id);
                    let rows = frame_rows(self.sprites[id].current_frame());
                    proof {
                        let f = self.sprites@[id as int].animation.frames@[self.sprites@[id as int].animation.current_frame_id as int];
                        assert(crate::sprite::frames_fit(self.sprites@[id as int].animation.frames@));
                        assert(crate::sprite::frame_height(f) <= i32::MAX);
                        assert(rows@.len() == rows@.map_values(|l: Vec<char>| l@).len());
                    }
                    if w > 0 {
                        blit(&mut screen, &rows, pos.x, pos.y, w, h);
                    } else {
                        let ghost len = screen@.len() as int;
                        assert(len == 0) by (nonlinear_arith)
                            requires
                                len == (w as int) * (h as int),
                                w == 0,
                        ;
                        assert(screen@ =~= drawn(
                            screen@,
                            rows@.map_values(|l: Vec<char>| l@),
                            pos.x as int,
                            pos.y as int,
                            w as int,
                            h as int,
                        ));
                    }
                }
            }
            k = k + 1;
        }
        proof {
            assert(render_from(self.sprites@, screen@, order@, k as int, tick, ts) == (
            self.sprites@, screen@));
        }
        Ok(screen)
    }

    /// Evaluate collision `i`; on a detection its counter goes up by one.
    /// Evaluating a pairwise collision of an entity with itself fails.
    pub fn check_collision(&mut self, i: usize) -> (r: Result<bool, CollisionError>)
        requires
            i < old(self).collisions@.len(),
            old(self).collisions@[i as int].valid(),
        ensures
            r == detect(old(self).sprites@, old(self).collisions@[i as int], old(self).terminal_size),
            final(self).collisions@ == if r == Ok::<bool, CollisionError>(true) {
                old(self).collisions@.update(i as int, old(self).collisions@[i as int].bump())
            } else {
                old(self).collisions@
            },
            final(self).sprites@ == old(self).sprites@,
            final(self).terminal_size == old(self).terminal_size,
    {
        let n = self.sprites.len();
        let c = self.collisions[i];
        // an entity paired with itself is an authoring error, ruled out above;
        // it is still reported rather than evaluated
        let r: Result<bool, CollisionError> = match c {
            Collision::Sprite { a, b, .. } => {
                if a == b {
                    Err(CollisionError::SameSprite)
                } else if a >= n || b >= n {
                    Err(CollisionError::UnknownSprite)
                } else if !(self.sprites[a].collider.is_active && self.sprites[b].collider.is_active) {
                    Ok(false)
                } else {
                    let pa = self.coordinate_of(a);
                    let pb = self.coordinate_of(b);
                    Ok(rects_overlap(self.sprites[a].collider, pa, self.sprites[b].collider, pb))
                }
            },
            Collision::Edge { a, edge, .. } => {
                if a >= n {
                    Err(CollisionError::UnknownSprite)
                } else if !self.sprites[a].collider.is_active {
                    Ok(false)
                } else {
                    let pa = self.coordinate_of(a);
                    Ok(edge_touch(self.sprites[a].collider, pa, edge, self.terminal_size))
                }
            },
        };
        match r {
            Ok(true) => {
                let mut c2 = c;
                c2.increment();
                self.collisions.set(i, c2);
            },
            _ => {},
        }
        r
    }
}

fn abs_diff_u128(a: i32, b: i32) -> (r: u128)
    ensures
        r == abs(b - a),
        r <= u32::MAX,
{
    if b >= a {
        (b as i64 - a as i64) as u128
    } else {
        (a as i64 - b as i64) as u128
    }
}

/// Executable test of `Trajectory::path_fits`.
pub fn path_fits_exec(t: &Trajectory, terminal_size: Size, sprite_size: Size) -> (r: bool)
    requires
        crate::coord::sizes_fit(terminal_size, sprite_size),
    ensures
        r == t.path_fits(terminal_size, sprite_size),
{
    if t.speed < 0 {
        return false;
    }
    let a = t.start.resolve(terminal_size, sprite_size);
    let b = t.end.resolve(terminal_size, sprite_size);
    proof {
        assert(a == resolved(t.start, terminal_size, sprite_size));
        assert(b == resolved(t.end, terminal_size, sprite_size));
    }
    let dx = abs_diff_u128(a.x, b.x);
    let dy = abs_diff_u128(a.y, b.y);
    let major = if dx >= dy {
        dx
    } else {
        dy
    };
    let speed = t.speed as u128;
    proof {
        assert((major + 2) * speed <= 0x100000001 * 0x80000000) by (nonlinear_arith)
            requires
                major <= u32::MAX,
                speed <= 0x80000000,
        ;
        assert(dx == abs(layered(b).x - layered(a).x));
        assert(dy == abs(layered(b).y - layered(a).y));
        assert(abs(layered(b).z - layered(a).z) == 0);
        assert((major + 1) * speed <= (major + 2) * speed) by (nonlinear_arith)
            requires
                speed >= 0,
        ;
    }
    match t.direction {
        Direction::Linear => (major + 1) * speed <= usize::MAX as u128,
        Direction::Circular => {
            let steps = if major >= 1 {
                major
            } else {
                1
            };
            assert((steps + 1) * speed <= (major + 2) * speed) by (nonlinear_arith)
                requires
                    speed >= 0,
                    steps <= major + 1,
            ;
            (steps + 1) * speed <= usize::MAX as u128
        },
        _ => true,
    }
}

fn clamp_add(a: i32, b: i32) -> (r: i32)
    ensures
        r == clamp_i32(a + b),
{
    let s = a as i64 + b as i64;
    if s < i32::MIN as i64 {
        i32::MIN
    } else if s > i32::MAX as i64 {
        i32::MAX
    } else {
        s as i32
    }
}

} // verus!
