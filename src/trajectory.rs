use vstd::prelude::*;

use crate::coord::{sizes_fit, sum_fits, Coord, Position, XTermPosition, YTermPosition};
use crate::engine::Size;
use crate::coords::Coords;

verus! {

pub open spec fn abs(n: int) -> int {
    if n < 0 {
        -n
    } else {
        n
    }
}

pub open spec fn max2(a: int, b: int) -> int {
    if a >= b {
        a
    } else {
        b
    }
}

/// Offset along the minor axis after `k` steps along the major axis: the
/// rounding of `k * minor / major` that the error-term line algorithm makes.
pub open spec fn minor_step(k: int, minor: int, major: int) -> int {
    if major == 0 {
        0
    } else {
        (2 * k * minor + major - 1) / (2 * major)
    }
}

/// Number of points of the discrete line from `s` to `e`.
pub open spec fn line_len(s: Coord, e: Coord) -> int {
    max2(abs(e.x - s.x), abs(e.y - s.y)) + 1
}

/// The `k`-th point of the discrete line from `s` to `e`.
pub open spec fn line_point(s: Coord, e: Coord, k: int) -> Coord {
    let dx = abs(e.x - s.x);
    let dy = abs(e.y - s.y);
    let sx: int = if s.x < e.x {
        1
    } else {
        -1
    };
    let sy: int = if s.y < e.y {
        1
    } else {
        -1
    };
    if dx >= dy {
        Coord { x: (s.x + sx * k) as i32, y: (s.y + sy * minor_step(k, dy, dx)) as i32 }
    } else {
        Coord { x: (s.x + sx * minor_step(k, dx, dy)) as i32, y: (s.y + sy * k) as i32 }
    }
}

proof fn lemma_minor_step_bounds(k: int, minor: int, major: int)
    requires
        0 <= k <= major,
        0 <= minor <= major,
    ensures
        0 <= minor_step(k, minor, major) <= minor,
{
    if major > 0 {
        assert(2 * k * minor <= 2 * major * minor) by (nonlinear_arith)
            requires
                0 <= k <= major,
                0 <= minor,
        ;
        assert(0 <= 2 * k * minor) by (nonlinear_arith)
            requires
                0 <= k,
                0 <= minor,
        ;
        let n = 2 * k * minor + major - 1;
        assert(n < 2 * major * (minor + 1)) by (nonlinear_arith)
            requires
                n == 2 * k * minor + major - 1,
                2 * k * minor <= 2 * major * minor,
                major > 0,
        ;
        vstd::arithmetic::div_mod::lemma_div_pos_is_pos(n, 2 * major);
        vstd::arithmetic::div_mod::lemma_div_by_multiple_is_strongly_ordered(
            n,
            2 * major * (minor + 1),
            minor + 1,
            2 * major,
        );
        assert(2 * major * (minor + 1) == (minor + 1) * (2 * major)) by (nonlinear_arith);
        vstd::arithmetic::div_mod::lemma_div_multiples_vanish(minor + 1, 2 * major);
    }
}

/// Offset along the minor axis, computed without overflow.
fn minor_offset(k: u64, minor: u64, major: u64) -> (r: u64)
    requires
        k <= major <= u32::MAX,
        minor <= major,
    ensures
        r == minor_step(k as int, minor as int, major as int),
        r <= minor,
{
    proof {
        lemma_minor_step_bounds(k as int, minor as int, major as int);
    }
    if major == 0 {
        0
    } else {
        assert(2 * (k as int) * (minor as int) <= 2 * (u32::MAX as int) * (u32::MAX as int))
            by (nonlinear_arith)
            requires
                k <= u32::MAX,
                minor <= u32::MAX,
        ;
        let prod: u128 = 2 * (k as u128) * (minor as u128);
        let num: u128 = prod + (major as u128) - 1;
        (num / (2 * (major as u128))) as u64
    }
}

/// The discrete straight line from `start` to `end`, both ends included; each
/// step moves one unit along the axis of larger extent.
pub fn bresenham_path(start: Coord, end: Coord) -> (r: Vec<Coord>)
    ensures
        r@.len() == line_len(start, end),
        forall|k: int| 0 <= k < r@.len() ==> r@[k] == line_point(start, end, k),
{
    let dx: u64 = if end.x >= start.x {
        (end.x as i64 - start.x as i64) as u64
    } else {
        (start.x as i64 - end.x as i64) as u64
    };
    let dy: u64 = if end.y >= start.y {
        (end.y as i64 - start.y as i64) as u64
    } else {
        (start.y as i64 - end.y as i64) as u64
    };
    let sx: i64 = if start.x < end.x {
        1
    } else {
        -1
    };
    let sy: i64 = if start.y < end.y {
        1
    } else {
        -1
    };
    let major = if dx >= dy {
        dx
    } else {
        dy
    };
    let mut points: Vec<Coord> = Vec::new();
    let mut k: u64 = 0;
    while k <= major
        invariant
            dx == abs(end.x - start.x),
            dy == abs(end.y - start.y),
            sx == (if start.x < end.x {
                1int
            } else {
                -1int
            }),
            sy == (if start.y < end.y {
                1int
            } else {
                -1int
            }),
            major == max2(dx as int, dy as int),
            major <= u32::MAX,
            k <= major + 1,
            points@.len() == k,
            forall|j: int| 0 <= j < k ==> points@[j] == line_point(start, end, j),
        decreases major + 1 - k,
    {
        let p = if dx >= dy {
            let m = minor_offset(k, dy, dx);
            Coord { x: (start.x as i64 + sx * (k as i64)) as i32, y: (start.y as i64 + sy * (m as i64)) as i32 }
        } else {
            let m = minor_offset(k, dx, dy);
            Coord { x: (start.x as i64 + sx * (m as i64)) as i32, y: (start.y as i64 + sy * (k as i64)) as i32 }
        };
        assert(p == line_point(start, end, k as int));
        points.push(p);
        k = k + 1;
    }
    points
}

/// `ttl` copies of `position`.
pub fn stationary_path(position: Coord, ttl: usize) -> (r: Vec<Coord>)
    ensures
        r@ == Seq::new(ttl as nat, |i: int| position),
{
    let mut points: Vec<Coord> = Vec::new();
    let mut i: usize = 0;
    while i < ttl
        invariant
            i <= ttl,
            points@ == Seq::new(i as nat, |j: int| position),
        decreases ttl - i,
    {
        points.push(position);
        i = i + 1;
        assert(points@ =~= Seq::new(i as nat, |j: int| position));
    }
    points
}

/// Each point of `path` held for `speed` consecutive ticks.
pub open spec fn replicated<T>(path: Seq<T>, speed: nat) -> Seq<T> {
    Seq::new(path.len() * speed, |i: int| path[i / speed as int])
}

proof fn lemma_index_in_block(i: int, j: int, k: int, speed: int)
    requires
        0 <= i,
        0 <= k < j,
        j <= speed,
    ensures
        (i * speed + k) / speed == i,
{
    vstd::arithmetic::div_mod::lemma_fundamental_div_mod_converse(i * speed + k, speed, i, k);
}

/// Repeats every point of `path` `speed` times, so that the occupant holds each
/// position for `speed` ticks.
pub fn add_speed<T: Copy>(path: &Vec<T>, speed: usize) -> (r: Vec<T>)
    requires
        path@.len() * speed <= usize::MAX,
    ensures
        r@ == replicated(path@, speed as nat),
{
    let mut out: Vec<T> = Vec::new();
    let mut i: usize = 0;
    while i < path.len()
        invariant
            i <= path@.len(),
            path@.len() * speed <= usize::MAX,
            out@.len() == i * speed,
            forall|p: int| 0 <= p < out@.len() ==> out@[p] == path@[p / speed as int],
        decreases path@.len() - i,
    {
        let mut j: usize = 0;
        while j < speed
            invariant
                i < path@.len(),
                j <= speed,
                out@.len() == i * speed + j,
                forall|p: int| 0 <= p < out@.len() ==> out@[p] == path@[p / speed as int],
            decreases speed - j,
        {
            proof {
                lemma_index_in_block(i as int, j + 1, j as int, speed as int);
            }
            out.push(path[i]);
            j = j + 1;
        }
        proof {
            assert((i + 1) * speed == i * speed + speed) by (nonlinear_arith);
        }
        i = i + 1;
    }
    proof {
        assert(out@ =~= replicated(path@, speed as nat));
    }
    out
}


/// `num / den` rounded to the nearest integer, halves away from zero.
pub open spec fn round_div(num: int, den: int) -> int {
    if num >= 0 {
        (2 * num + den) / (2 * den)
    } else {
        -((2 * -num + den) / (2 * den))
    }
}

/// `v` clamped into the range of `i32`.
pub open spec fn clamp_i32(v: int) -> i32 {
    if v < i32::MIN {
        i32::MIN
    } else if v > i32::MAX {
        i32::MAX
    } else {
        v as i32
    }
}

/// Number of interpolation steps of an arc from `s` to `e`.
pub open spec fn arc_steps(s: Coords, e: Coords) -> int {
    max2(max2(max2(abs(e.z - s.z), abs(e.x - s.x)), abs(e.y - s.y)), 1)
}

/// Sample `i` of the arc from `s` to `e`: at `t = i / steps` the straight
/// interpolation, raised along `y` by `radius * 4t(1 - t)`, rounded.
pub open spec fn arc_sample(s: Coords, e: Coords, radius: int, i: int) -> Coords {
    let n = arc_steps(s, e);
    Coords {
        x: clamp_i32(round_div(s.x * n + (e.x - s.x) * i, n)),
        y: clamp_i32(
            round_div(s.y * n * n + (e.y - s.y) * i * n + 4 * i * (n - i) * radius, n * n),
        ),
        z: clamp_i32(round_div(s.z * n + (e.z - s.z) * i, n)),
    }
}

/// `s` with each run of equal consecutive elements kept once.
pub open spec fn dedup<T>(s: Seq<T>) -> Seq<T>
    decreases s.len(),
{
    if s.len() == 0 {
        s
    } else {
        let d = dedup(s.drop_last());
        if d.len() > 0 && d.last() == s.last() {
            d
        } else {
            d.push(s.last())
        }
    }
}

/// The samples `0..=steps` of the arc from `s` to `e`.
pub open spec fn arc_samples(s: Coords, e: Coords, radius: int) -> Seq<Coords> {
    Seq::new((arc_steps(s, e) + 1) as nat, |i: int| arc_sample(s, e, radius, i))
}

const ROUND_BOUND: i128 = 0x10000000000000000000000000;

/// Executable `round_div` on bounded numerators.
fn round_div_exec(num: i128, den: i128) -> (r: i128)
    requires
        0 < den < ROUND_BOUND,
        -ROUND_BOUND < num < ROUND_BOUND,
    ensures
        r == round_div(num as int, den as int),
{
    if num >= 0 {
        (2 * num + den) / (2 * den)
    } else {
        -((2 * -num + den) / (2 * den))
    }
}

fn clamp_exec(v: i128) -> (r: i32)
    ensures
        r == clamp_i32(v as int),
{
    if v < i32::MIN as i128 {
        i32::MIN
    } else if v > i32::MAX as i128 {
        i32::MAX
    } else {
        v as i32
    }
}

fn abs_diff(a: i32, b: i32) -> (r: i128)
    ensures
        r == abs(b - a),
        r <= u32::MAX,
{
    if b >= a {
        b as i128 - a as i128
    } else {
        a as i128 - b as i128
    }
}

/// A discrete arc from `start` to `end` whose height at the middle is `radius`;
/// consecutive equal points are kept once.
pub fn arc_path(start: Coords, end: Coords, radius: i32) -> (r: Vec<Coords>)
    ensures
        r@ == dedup(arc_samples(start, end, radius as int)),
{
    let dx = abs_diff(start.x, end.x);
    let dy = abs_diff(start.y, end.y);
    let dz = abs_diff(start.z, end.z);
    let mut n: i128 = dz;
    if dx > n {
        n = dx;
    }
    if dy > n {
        n = dy;
    }
    if n < 1 {
        n = 1;
    }
    assert(n == arc_steps(start, end));
    let ghost samples = arc_samples(start, end, radius as int);
    let mut path: Vec<Coords> = Vec::new();
    let mut i: i128 = 0;
    while i <= n
        invariant
            n == arc_steps(start, end),
            1 <= n <= u32::MAX,
            0 <= i <= n + 1,
            samples == arc_samples(start, end, radius as int),
            path@ == dedup(samples.take(i as int)),
        decreases n + 1 - i,
    {
        let ex = end.x as i128 - start.x as i128;
        let ey = end.y as i128 - start.y as i128;
        let ez = end.z as i128 - start.z as i128;
        proof {
            assert(-(n as int) <= ex <= n);
            assert(-(n as int) <= ey <= n);
            assert(-(n as int) <= ez <= n);
            lemma_arc_bounds(start, end, radius, n as int, i as int);
        }
        let xn = start.x as i128 * n + ex * i;
        let zn = start.z as i128 * n + ez * i;
        let yn = start.y as i128 * n * n + ey * i * n + 4 * i * (n - i) * (radius as i128);
        let c = Coords {
            x: clamp_exec(round_div_exec(xn, n)),
            y: clamp_exec(round_div_exec(yn, n * n)),
            z: clamp_exec(round_div_exec(zn, n)),
        };
        assert(c == samples[i as int]);
        assert(samples.take(i + 1).drop_last() =~= samples.take(i as int));
        let len = path.len();
        if len == 0 || path[len - 1] != c {
            path.push(c);
        }
        i = i + 1;
    }
    assert(samples.take(i as int) =~= samples);
    path
}

proof fn lemma_mul_abs(a: int, b: int, ba: int, bb: int)
    requires
        -ba <= a <= ba,
        -bb <= b <= bb,
    ensures
        -(ba * bb) <= a * b <= ba * bb,
{
    assert(-(ba * bb) <= a * b <= ba * bb) by (nonlinear_arith)
        requires
            -ba <= a <= ba,
            -bb <= b <= bb,
    ;
}

proof fn lemma_arc_bounds(s: Coords, e: Coords, radius: i32, n: int, i: int)
    requires
        1 <= n <= u32::MAX,
        0 <= i <= n,
        -n <= e.x - s.x <= n,
        -n <= e.y - s.y <= n,
        -n <= e.z - s.z <= n,
    ensures
        -0x8000000000000000 <= s.x * n <= 0x8000000000000000,
        -0x8000000000000000 <= s.y * n <= 0x8000000000000000,
        -0x8000000000000000 <= s.z * n <= 0x8000000000000000,
        -0x10000000000000000 <= (e.x - s.x) * i <= 0x10000000000000000,
        -0x10000000000000000 <= (e.y - s.y) * i <= 0x10000000000000000,
        -0x10000000000000000 <= (e.z - s.z) * i <= 0x10000000000000000,
        -0x800000000000000000000000 <= s.y * n * n <= 0x800000000000000000000000,
        -0x1000000000000000000000000 <= (e.y - s.y) * i * n <= 0x1000000000000000000000000,
        0 <= 4 * i <= 0x400000000,
        0 <= 4 * i * (n - i) <= 0x40000000000000000,
        -0x2000000000000000000000000 <= 4 * i * (n - i) * radius
            <= 0x2000000000000000000000000,
        0 < n * n <= 0x10000000000000000,
{
    let p31: int = 0x80000000;
    let p32: int = 0x100000000;
    lemma_mul_abs(s.x as int, n, p31, p32);
    lemma_mul_abs(s.y as int, n, p31, p32);
    lemma_mul_abs(s.z as int, n, p31, p32);
    lemma_mul_abs(e.x - s.x, i, p32, p32);
    lemma_mul_abs(e.y - s.y, i, p32, p32);
    lemma_mul_abs(e.z - s.z, i, p32, p32);
    lemma_mul_abs(s.y * n, n, 0x8000000000000000, p32);
    lemma_mul_abs((e.y - s.y) * i, n, 0x10000000000000000, p32);
    lemma_mul_abs(4 * i, n - i, 0x400000000, p32);
    assert(0 <= 4 * i * (n - i)) by (nonlinear_arith)
        requires
            0 <= i <= n,
    ;
    lemma_mul_abs(4 * i * (n - i), radius as int, 0x40000000000000000, p31);
    lemma_mul_abs(n, n, p32, p32);
    assert(0 < n * n) by (nonlinear_arith)
        requires
            1 <= n,
    ;
}


pub proof fn lemma_dedup_len<T>(s: Seq<T>)
    ensures
        dedup(s).len() <= s.len(),
    decreases s.len(),
{
    if s.len() > 0 {
        lemma_dedup_len(s.drop_last());
    }
}

/// Step direction along an axis from `a` to `b`.
pub open spec fn step_sign(a: i32, b: i32) -> int {
    if a < b {
        1
    } else {
        -1
    }
}

/// Number of points of the discrete line from `s` to `e` in three axes.
pub open spec fn line_len_3d(s: Coords, e: Coords) -> int {
    max2(max2(abs(e.x - s.x), abs(e.y - s.y)), abs(e.z - s.z)) + 1
}

/// The `k`-th point of the discrete line from `s` to `e` in three axes: one
/// unit along the axis of largest extent per step, the other axes rounded as in
/// the plane.
pub open spec fn line_point_3d(s: Coords, e: Coords, k: int) -> Coords {
    let n = line_len_3d(s, e) - 1;
    Coords {
        x: (s.x + step_sign(s.x, e.x) * minor_step(k, abs(e.x - s.x), n)) as i32,
        y: (s.y + step_sign(s.y, e.y) * minor_step(k, abs(e.y - s.y), n)) as i32,
        z: (s.z + step_sign(s.z, e.z) * minor_step(k, abs(e.z - s.z), n)) as i32,
    }
}

/// Along the axis of largest extent the line moves one unit per step.
pub proof fn lemma_major_step(k: int, n: int)
    requires
        0 <= k <= n,
        n > 0,
    ensures
        minor_step(k, n, n) == k,
{
    assert(2 * k * n + n - 1 == k * (2 * n) + (n - 1)) by (nonlinear_arith);
    vstd::arithmetic::div_mod::lemma_fundamental_div_mod_converse(
        2 * k * n + n - 1,
        2 * n,
        k,
        n - 1,
    );
}

fn axis_point(a: i32, b: i32, k: u64, major: u64) -> (r: i32)
    requires
        k <= major <= u32::MAX,
        abs(b - a) <= major,
    ensures
        r == (a + step_sign(a, b) * minor_step(k as int, abs(b - a), major as int)) as i32,
{
    let d = abs_diff(a, b) as u64;
    let m = minor_offset(k, d, major);
    let sign: i64 = if a < b {
        1
    } else {
        -1
    };
    (a as i64 + sign * (m as i64)) as i32
}

/// The discrete straight line from `start` to `end` through three axes, both
/// ends included; with `z` unchanged it is the plane line of `bresenham_path`.
pub fn bresenham_path_3d(start: Coords, end: Coords) -> (r: Vec<Coords>)
    ensures
        r@.len() == line_len_3d(start, end),
        forall|k: int| 0 <= k < r@.len() ==> r@[k] == line_point_3d(start, end, k),
{
    let dx = abs_diff(start.x, end.x) as u64;
    let dy = abs_diff(start.y, end.y) as u64;
    let dz = abs_diff(start.z, end.z) as u64;
    let mut major = dx;
    if dy > major {
        major = dy;
    }
    if dz > major {
        major = dz;
    }
    let mut points: Vec<Coords> = Vec::new();
    let mut k: u64 = 0;
    while k <= major
        invariant
            major == line_len_3d(start, end) - 1,
            dx == abs(end.x - start.x),
            dy == abs(end.y - start.y),
            dz == abs(end.z - start.z),
            major <= u32::MAX,
            k <= major + 1,
            points@.len() == k,
            forall|j: int| 0 <= j < k ==> points@[j] == line_point_3d(start, end, j),
        decreases major + 1 - k,
    {
        let p = Coords {
            x: axis_point(start.x, end.x, k, major),
            y: axis_point(start.y, end.y, k, major),
            z: axis_point(start.z, end.z, k, major),
        };
        points.push(p);
        k = k + 1;
    }
    points
}

/// With the layer unchanged, the line through three axes is the plane line.
pub proof fn lemma_line_3d_extends_plane(a: Coord, b: Coord, k: int)
    requires
        0 <= k < line_len(a, b),
    ensures
        line_len_3d(layered(a), layered(b)) == line_len(a, b),
        flat(line_point_3d(layered(a), layered(b), k)) == line_point(a, b, k),
{
    let dx = abs(b.x - a.x);
    let dy = abs(b.y - a.y);
    if dx >= dy && dx > 0 {
        lemma_major_step(k, dx);
    } else if dy > dx {
        lemma_major_step(k, dy);
    }
}

/// How a trajectory produces its path.
#[derive(Clone, Copy, Debug, PartialEq, Eq, Structural)]
pub enum Direction {
    Linear,
    Stationary,
    Relative,
    Circular,
    Unset,
}

/// `p` moved by `o`, each coordinate clamped into `i32`.
pub open spec fn shift(p: Coord, o: Coord) -> Coord {
    Coord { x: clamp_i32(p.x + o.x), y: clamp_i32(p.y + o.y) }
}

pub open spec fn shifted(path: Seq<Coord>, o: Coord) -> Seq<Coord> {
    path.map_values(|p: Coord| shift(p, o))
}

/// The concrete coordinate a position resolves to.
pub open spec fn resolved(p: Position, terminal_size: Size, sprite_size: Size) -> Coord {
    let r = p.resolve_spec(terminal_size, sprite_size);
    Coord { x: r.0 as i32, y: r.1 as i32 }
}

/// The points of the discrete line from `a` to `b`.
pub open spec fn line_seq(a: Coord, b: Coord) -> Seq<Coord> {
    Seq::new(line_len(a, b) as nat, |k: int| line_point(a, b, k))
}

pub open spec fn flat(c: Coords) -> Coord {
    Coord { x: c.x, y: c.y }
}

pub open spec fn layered(c: Coord) -> Coords {
    Coords { x: c.x, y: c.y, z: 0 }
}

/// The arc from `a` to `b` in the plane.
pub open spec fn arc_seq(a: Coord, b: Coord, radius: int) -> Seq<Coord> {
    dedup(arc_samples(layered(a), layered(b), radius)).map_values(|c: Coords| flat(c))
}

/// Whether `c` lies wholly outside a terminal of `terminal_size` for an
/// occupant of `sprite_size`.
pub open spec fn out_of_terminal(c: Coord, terminal_size: Size, sprite_size: Size) -> bool {
    ||| c.x >= terminal_size.width
    ||| c.y >= terminal_size.height
    ||| c.x <= -(sprite_size.width as int)
    ||| c.y <= -(sprite_size.height as int)
}

fn sat_add(a: i32, b: i32) -> (r: i32)
    ensures
        r == clamp_i32(a + b),
{
    clamp_exec(a as i128 + b as i128)
}

/// Every point of `path` moved by `offset`.
pub fn shift_path(path: &Vec<Coord>, offset: Coord) -> (r: Vec<Coord>)
    ensures
        r@ == shifted(path@, offset),
{
    let mut out: Vec<Coord> = Vec::new();
    let mut i: usize = 0;
    while i < path.len()
        invariant
            i <= path@.len(),
            out@ == shifted(path@.take(i as int), offset),
        decreases path@.len() - i,
    {
        let p = path[i];
        out.push(Coord { x: sat_add(p.x, offset.x), y: sat_add(p.y, offset.y) });
        i = i + 1;
        assert(out@ =~= shifted(path@.take(i as int), offset));
    }
    assert(path@.take(i as int) =~= path@);
    out
}

/// The path an occupant follows, one point per tick, with its cursor and
/// lifetime bookkeeping.
pub struct Trajectory {
    pub current_coordinate_id: usize,
    pub path: Vec<Coord>,
    pub start: Position,
    pub end: Position,
    pub direction: Direction,
    /// Ticks held on each point of the path: a lower value moves faster.
    pub speed: i32,
    pub is_done: bool,
    pub offset: Coord,
    /// Ticks to live; 0 lives forever.
    pub ttl: usize,
    /// The entity a relative trajectory follows.
    pub parent: Option<usize>,
    pub started_tick_id: Option<usize>,
    pub radius: i32,
}

impl Trajectory {
    pub open spec fn fresh(&self) -> bool {
        &&& self.current_coordinate_id == 0
        &&& self.path@.len() == 0
        &&& !self.is_done
        &&& self.started_tick_id is None
    }

    pub fn new_none(start: Position, end: Position, direction: Direction) -> (r: Trajectory)
        requires
            direction != Direction::Stationary,
        ensures
            r.fresh(),
            r.start == start,
            r.end == end,
            r.direction == direction,
            r.speed == 0,
            r.offset == (Coord { x: 0, y: 0 }),
            r.ttl == 0,
            r.parent is None,
            r.radius == 0,
    {
        Trajectory {
            current_coordinate_id: 0,
            path: Vec::new(),
            start,
            end,
            direction,
            speed: 0,
            is_done: false,
            offset: Coord { x: 0, y: 0 },
            ttl: 0,
            parent: None,
            started_tick_id: None,
            radius: 0,
        }
    }

    pub fn new_linear(start: Position, end: Position, speed: i32) -> (r: Trajectory)
        ensures
            r.fresh(),
            r.start == start,
            r.end == end,
            r.direction == Direction::Linear,
            r.speed == speed,
            r.offset == (Coord { x: 0, y: 0 }),
            r.ttl == 0,
            r.parent is None,
            r.radius == 0,
    {
        Trajectory {
            current_coordinate_id: 0,
            path: Vec::new(),
            start,
            end,
            direction: Direction::Linear,
            speed,
            is_done: false,
            offset: Coord { x: 0, y: 0 },
            ttl: 0,
            parent: None,
            started_tick_id: None,
            radius: 0,
        }
    }

    pub fn new_circular(start: Position, end: Position, speed: i32, radius: i32) -> (r:
        Trajectory)
        ensures
            r.fresh(),
            r.start == start,
            r.end == end,
            r.direction == Direction::Circular,
            r.speed == speed,
            r.offset == (Coord { x: 0, y: 0 }),
            r.ttl == 0,
            r.parent is None,
            r.radius == radius,
    {
        Trajectory {
            current_coordinate_id: 0,
            path: Vec::new(),
            start,
            end,
            direction: Direction::Circular,
            speed,
            is_done: false,
            offset: Coord { x: 0, y: 0 },
            ttl: 0,
            parent: None,
            started_tick_id: None,
            radius,
        }
    }

    pub fn new_stationary(position: Position, ttl: usize) -> (r: Trajectory)
        ensures
            r.fresh(),
            r.start == position,
            r.end == position,
            r.direction == Direction::Stationary,
            r.speed == 0,
            r.offset == (Coord { x: 0, y: 0 }),
            r.ttl == ttl,
            r.parent is None,
            r.radius == 0,
    {
        Trajectory {
            current_coordinate_id: 0,
            path: Vec::new(),
            start: position,
            end: position,
            direction: Direction::Stationary,
            speed: 0,
            is_done: false,
            offset: Coord { x: 0, y: 0 },
            ttl,
            parent: None,
            started_tick_id: None,
            radius: 0,
        }
    }

    /// A trajectory that follows entity `parent` at a fixed `offset`.
    pub fn new_relative(parent: usize, offset: Coord) -> (r: Trajectory)
        ensures
            r.fresh(),
            r.direction == Direction::Relative,
            r.speed == -1,
            r.offset == offset,
            r.ttl == 0,
            r.parent == Some(parent),
            r.radius == 0,
    {
        let out = Position { x: XTermPosition::LeftOut, y: YTermPosition::BottomOut };
        Trajectory {
            current_coordinate_id: 0,
            path: Vec::new(),
            start: out,
            end: out,
            direction: Direction::Relative,
            speed: -1,
            is_done: false,
            offset,
            ttl: 0,
            parent: Some(parent),
            started_tick_id: None,
            radius: 0,
        }
    }

    pub fn add_offset(&mut self, coord: Coord)
        requires
            sum_fits(old(self).offset, coord),
        ensures
            final(self).offset.x == old(self).offset.x + coord.x,
            final(self).offset.y == old(self).offset.y + coord.y,
            *final(self) == (Trajectory { offset: final(self).offset, ..*old(self) }),
    {
        self.offset = self.offset.plus(coord);
    }

    pub fn offset(&self) -> (r: Coord)
        ensures
            r == self.offset,
    {
        self.offset
    }

    pub fn direction(&self) -> (r: Direction)
        ensures
            r == self.direction,
    {
        self.direction
    }

    pub fn speed(&self) -> (r: i32)
        ensures
            r == self.speed,
    {
        self.speed
    }

    pub fn is_done(&self) -> (r: bool)
        ensures
            r == self.is_done,
    {
        self.is_done
    }

    pub fn parent(&self) -> (r: Option<usize>)
        ensures
            r == self.parent,
    {
        self.parent
    }

    pub fn path(&self) -> (r: Vec<Coord>)
        ensures
            r@ == self.path@,
    {
        let mut out: Vec<Coord> = Vec::new();
        let mut i: usize = 0;
        while i < self.path.len()
            invariant
                i <= self.path@.len(),
                out@ == self.path@.take(i as int),
            decreases self.path@.len() - i,
        {
            out.push(self.path[i]);
            i = i + 1;
            assert(out@ =~= self.path@.take(i as int));
        }
        assert(self.path@.take(i as int) =~= self.path@);
        out
    }

    pub fn has_started(&self) -> (r: bool)
        ensures
            r == self.started_tick_id is Some,
    {
        self.started_tick_id.is_some()
    }

    pub fn started_tick(&self) -> (r: Option<usize>)
        ensures
            r == self.started_tick_id,
    {
        self.started_tick_id
    }

    /// The path before the offset is added, for every kind but `Relative`.
    pub open spec fn base_path(&self, terminal_size: Size, sprite_size: Size) -> Seq<Coord> {
        let a = resolved(self.start, terminal_size, sprite_size);
        let b = resolved(self.end, terminal_size, sprite_size);
        match self.direction {
            Direction::Linear => replicated(line_seq(a, b), self.speed as nat),
            Direction::Stationary => if self.ttl > 0 {
                Seq::new(self.ttl as nat, |i: int| a)
            } else {
                seq![a]
            },
            Direction::Circular => replicated(arc_seq(a, b, self.radius as int), self.speed as nat),
            _ => Seq::empty(),
        }
    }

    /// Whether the replicated path of this trajectory fits in memory indices.
    pub open spec fn path_fits(&self, terminal_size: Size, sprite_size: Size) -> bool {
        let a = resolved(self.start, terminal_size, sprite_size);
        let b = resolved(self.end, terminal_size, sprite_size);
        &&& self.speed >= 0
        &&& self.direction == Direction::Linear ==> line_len(a, b) * self.speed <= usize::MAX
        &&& self.direction == Direction::Circular ==> (arc_steps(layered(a), layered(b)) + 1)
            * self.speed <= usize::MAX
    }

    /// Recompute the path of a trajectory that does not follow a parent.
    pub fn compute_path(&mut self, terminal_size: Size, sprite_size: Size)
        requires
            old(self).direction != Direction::Relative,
            sizes_fit(terminal_size, sprite_size),
            old(self).path_fits(terminal_size, sprite_size),
        ensures
            final(self).path@ == shifted(old(self).base_path(terminal_size, sprite_size), old(self).offset),
            *final(self) == (Trajectory { path: final(self).path, ..*old(self) }),
    {
        let a = self.start.resolve(terminal_size, sprite_size);
        let b = self.end.resolve(terminal_size, sprite_size);
        let base: Vec<Coord> = match self.direction {
            Direction::Linear => {
                let line = bresenham_path(a, b);
                proof {
                    assert(line@ =~= line_seq(a, b));
                }
                add_speed(&line, self.speed as usize)
            },
            Direction::Stationary => {
                if self.ttl > 0 {
                    let r = stationary_path(a, self.ttl);
                    r
                } else {
                    let mut r: Vec<Coord> = Vec::new();
                    r.push(a);
                    proof {
                        assert(r@ =~= seq![a]);
                    }
                    r
                }
            },
            Direction::Circular => {
                let arc = arc_path(
                    Coords { x: a.x, y: a.y, z: 0 },
                    Coords { x: b.x, y: b.y, z: 0 },
                    self.radius,
                );
                let ghost target = arc_seq(a, b, self.radius as int);
                let mut flat_arc: Vec<Coord> = Vec::new();
                let mut i: usize = 0;
                while i < arc.len()
                    invariant
                        i <= arc@.len(),
                        arc@ == dedup(arc_samples(layered(a), layered(b), self.radius as int)),
                        target == arc@.map_values(|c: Coords| flat(c)),
                        flat_arc@ == target.take(i as int),
                    decreases arc@.len() - i,
                {
                    let c = arc[i];
                    flat_arc.push(Coord { x: c.x, y: c.y });
                    i = i + 1;
                    assert(flat_arc@ =~= target.take(i as int));
                }
                proof {
                    assert(target.take(i as int) =~= target);
                    lemma_dedup_len(arc_samples(layered(a), layered(b), self.radius as int));
                    let n = flat_arc@.len();
                    let m = arc_steps(layered(a), layered(b)) + 1;
                    assert(n * (self.speed as nat) <= m * self.speed) by (nonlinear_arith)
                        requires n <= m, self.speed >= 0;
                }
                add_speed(&flat_arc, self.speed as usize)
            },
            _ => Vec::new(),
        };
        proof {
            assert(base@ =~= self.base_path(terminal_size, sprite_size));
        }
        self.path = shift_path(&base, self.offset);
    }

    /// Take the path of the followed parent, moved by this trajectory's offset.
    pub fn compute_relative_path(&mut self, parent_path: &Vec<Coord>)
        ensures
            final(self).path@ == shifted(parent_path@, old(self).offset),
            *final(self) == (Trajectory { path: final(self).path, ..*old(self) }),
    {
        self.path = shift_path(parent_path, self.offset);
    }

    /// The coordinate the path gives for tick `tick`: the first point before the
    /// trajectory started, else the point reached since it started, held on the
    /// last point once the path is used up; the origin for an empty path.
    pub open spec fn coordinate_at(&self, tick: int) -> Coord {
        let n = self.path@.len();
        if n == 0 {
            Coord { x: 0, y: 0 }
        } else if self.direction == Direction::Stationary || self.started_tick_id is None {
            self.path@[0]
        } else if tick - self.started_tick_id->0 >= n {
            self.path@[n - 1]
        } else {
            self.path@[tick - self.started_tick_id->0]
        }
    }

    pub fn get_coordinate(&self, tick_id: usize) -> (r: Coord)
        requires
            self.started_tick_id matches Some(s) ==> s <= tick_id,
        ensures
            r == self.coordinate_at(tick_id as int),
    {
        let n = self.path.len();
        if n == 0 {
            return Coord { x: 0, y: 0 };
        }
        if self.direction == Direction::Stationary {
            return self.path[0];
        }
        match self.started_tick_id {
            None => self.path[0],
            Some(s) => {
                if tick_id - s >= n {
                    self.path[n - 1]
                } else {
                    self.path[tick_id - s]
                }
            },
        }
    }

    /// The point under the cursor; the origin for an empty path.
    pub open spec fn current_spec(&self) -> Coord {
        let n = self.path@.len();
        if n == 0 {
            Coord { x: 0, y: 0 }
        } else if self.current_coordinate_id < n {
            self.path@[self.current_coordinate_id as int]
        } else {
            self.path@[n - 1]
        }
    }

    pub fn current_coordinate(&self) -> (r: Coord)
        ensures
            r == self.current_spec(),
    {
        let n = self.path.len();
        if n == 0 {
            Coord { x: 0, y: 0 }
        } else if self.current_coordinate_id < n {
            self.path[self.current_coordinate_id]
        } else {
            self.path[n - 1]
        }
    }

    /// The tick elapsed time counts from, once advanced at `tick`.
    pub open spec fn start_for(&self, tick: usize) -> int {
        match self.started_tick_id {
            Some(s) => s as int,
            None => tick as int,
        }
    }

    /// Whether the trajectory is done after being advanced at `tick`.
    pub open spec fn done_after(&self, tick: usize, terminal_size: Size, sprite_size: Size) -> bool {
        let elapsed = tick - self.start_for(tick);
        let started = Trajectory { started_tick_id: Some(self.start_for(tick) as usize), ..*self };
        if self.direction == Direction::Linear || self.direction == Direction::Circular {
            elapsed >= self.path@.len()
        } else {
            ||| self.is_done
            ||| (self.ttl > 0 && elapsed >= self.ttl)
            ||| (self.direction == Direction::Relative && out_of_terminal(
                started.coordinate_at(tick as int),
                terminal_size,
                sprite_size,
            ))
        }
    }

    /// The trajectory after `advance(tick, terminal_size, sprite_size)`.
    pub open spec fn advanced(self, tick: usize, terminal_size: Size, sprite_size: Size) -> Trajectory {
        Trajectory {
            started_tick_id: Some(self.start_for(tick) as usize),
            current_coordinate_id: if self.current_coordinate_id < usize::MAX {
                (self.current_coordinate_id + 1) as usize
            } else {
                self.current_coordinate_id
            },
            is_done: self.done_after(tick, terminal_size, sprite_size),
            ..self
        }
    }

    /// Move the cursor one step at tick `tick_id`; the first call fixes the tick
    /// elapsed time counts from.
    pub fn advance(&mut self, tick_id: usize, terminal_size: Size, sprite_size: Size)
        requires
            old(self).started_tick_id matches Some(s) ==> s <= tick_id,
        ensures
            *final(self) == old(self).advanced(tick_id, terminal_size, sprite_size),
            final(self).started_tick_id == Some(old(self).start_for(tick_id) as usize),
            final(self).current_coordinate_id == if old(self).current_coordinate_id < usize::MAX {
                old(self).current_coordinate_id + 1
            } else {
                usize::MAX as int
            },
            final(self).is_done == old(self).done_after(tick_id, terminal_size, sprite_size),
            final(self).path@ == old(self).path@,
            final(self).direction == old(self).direction,
            final(self).offset == old(self).offset,
            final(self).ttl == old(self).ttl,
            final(self).parent == old(self).parent,
            final(self).start == old(self).start,
            final(self).end == old(self).end,
            final(self).speed == old(self).speed,
            final(self).radius == old(self).radius,
    {
        if self.started_tick_id.is_none() {
            self.started_tick_id = Some(tick_id);
        }
        let start_tick = match self.started_tick_id {
            Some(s) => s,
            None => tick_id,
        };
        if self.current_coordinate_id < usize::MAX {
            self.current_coordinate_id = self.current_coordinate_id + 1;
        }
        let elapsed = tick_id - start_tick;
        if self.ttl > 0 && elapsed >= self.ttl {
            self.is_done = true;
        }
        if self.direction == Direction::Relative {
            let c = self.get_coordinate(tick_id);
            if c.x as i64 >= terminal_size.width as i64 || c.y as i64 >= terminal_size.height as i64 {
                self.is_done = true;
            } else if c.x as i64 <= -(sprite_size.width as i64) || c.y as i64 <= -(
            sprite_size.height as i64) {
                self.is_done = true;
            }
        }
        if self.direction == Direction::Linear || self.direction == Direction::Circular {
            self.is_done = elapsed >= self.path.len();
        }
    }
}


/// The straight path between the resolved ends has `max(|dx|, |dy|) + 1`
/// points; once every point is held for `speed` ticks it has that many times
/// `speed` points, and moving it by the offset keeps its length.
pub proof fn lemma_linear_path_len(t: Trajectory, terminal_size: Size, sprite_size: Size)
    requires
        t.direction == Direction::Linear,
        t.speed >= 0,
    ensures
        ({
            let a = resolved(t.start, terminal_size, sprite_size);
            let b = resolved(t.end, terminal_size, sprite_size);
            &&& line_seq(a, b).len() == max2(abs(b.x - a.x), abs(b.y - a.y)) + 1
            &&& shifted(t.base_path(terminal_size, sprite_size), t.offset).len() == (max2(
                abs(b.x - a.x),
                abs(b.y - a.y),
            ) + 1) * t.speed
        }),
{
}

/// A stationary trajectory that is not yet done is done after an advance exactly
/// when it has a time to live and that many ticks have passed since its first
/// advance; with no time to live it never is.
pub proof fn lemma_stationary_done(t: Trajectory, tick: usize, terminal_size: Size, sprite_size: Size)
    requires
        t.direction == Direction::Stationary,
        !t.is_done,
    ensures
        t.done_after(tick, terminal_size, sprite_size) == (t.ttl > 0 && tick - t.start_for(tick)
            >= t.ttl),
        t.ttl == 0 ==> !t.done_after(tick, terminal_size, sprite_size),
{
}

} // verus!
