use vstd::prelude::*;

use crate::animation::{Animation, AnimationKind};
use crate::collision::Collider;
use crate::coord::{Coord, Position, XTermPosition, YTermPosition};
use crate::engine::Size;
use crate::frame::{lines_of, max_width, Frame};
use crate::trajectory::{Direction, Trajectory};

verus! {

/// A key of the keyboard, as far as entity bindings tell keys apart.
#[derive(Clone, Copy, Debug, PartialEq, Eq, Structural)]
pub enum Key {
    Char(char),
    Left,
    Right,
    Up,
    Down,
    Enter,
    Esc,
    Backspace,
    Tab,
    Other,
}

/// Relies on getrandom::fill: sixteen bytes from the system's random source,
/// or nothing when that source fails. The bytes are random, so nothing more is
/// claimed of them.
#[verifier::external_body]
fn random_bytes() -> (r: Option<[u8; 16]>) {
    let mut bytes = [0u8; 16];
    match getrandom::fill(&mut bytes) {
        Ok(()) => Some(bytes),
        Err(_) => None,
    }
}

/// Relies on uuid::Builder::from_random_bytes: the version-4 (random) RFC 4122
/// identifier made of `bytes`, handed back as its 128-bit value (most
/// significant byte first), so its version nibble is 4 and its variant bits are
/// `10`.
#[verifier::external_body]
fn uuid_from_random(bytes: [u8; 16]) -> (r: u128)
    ensures
        (r >> 76u128) & 0xfu128 == 4,
        (r >> 62u128) & 0x3u128 == 2,
{
    uuid::Builder::from_random_bytes(bytes).into_uuid().as_u128()
}

/// A fresh random identifier, or nothing when no random bytes can be had.
fn fresh_id() -> (r: Option<u128>)
    ensures
        r matches Some(id) ==> (id >> 76u128) & 0xfu128 == 4,
{
    match random_bytes() {
        Some(bytes) => Some(uuid_from_random(bytes)),
        None => None,
    }
}

/// Width of the widest line of a frame.
pub open spec fn frame_width(f: Frame) -> nat {
    max_width(lines_of(f.ascii@))
}

/// Number of lines of a frame.
pub open spec fn frame_height(f: Frame) -> nat {
    lines_of(f.ascii@).len()
}

/// Largest width over `frames`, 0 when there is none.
pub open spec fn frames_width(frames: Seq<Frame>) -> nat
    decreases frames.len(),
{
    if frames.len() == 0 {
        0
    } else {
        let w = frames_width(frames.drop_last());
        let l = frame_width(frames.last());
        if l > w {
            l
        } else {
            w
        }
    }
}

/// Largest height over `frames`, 0 when there is none.
pub open spec fn frames_height(frames: Seq<Frame>) -> nat
    decreases frames.len(),
{
    if frames.len() == 0 {
        0
    } else {
        let h = frames_height(frames.drop_last());
        let l = frame_height(frames.last());
        if l > h {
            l
        } else {
            h
        }
    }
}

/// Frames whose every picture fits the terminal's signed coordinates.
pub open spec fn frames_fit(frames: Seq<Frame>) -> bool {
    forall|i: int|
        0 <= i < frames.len() ==> frame_width(#[trigger] frames[i]) <= i32::MAX && frame_height(
            frames[i],
        ) <= i32::MAX
}

proof fn lemma_frames_bounds(frames: Seq<Frame>)
    requires
        frames_fit(frames),
    ensures
        frames_width(frames) <= i32::MAX,
        frames_height(frames) <= i32::MAX,
    decreases frames.len(),
{
    if frames.len() > 0 {
        assert(frames_fit(frames.drop_last()));
        lemma_frames_bounds(frames.drop_last());
        assert(frames_fit(frames) ==> frame_width(frames[frames.len() - 1]) <= i32::MAX);
    }
}

/// The action bound to `key`: the latest binding wins.
pub open spec fn action_for(bindings: Seq<(Key, usize)>, key: Key) -> Option<usize>
    decreases bindings.len(),
{
    if bindings.len() == 0 {
        None
    } else if bindings.last().0 == key {
        Some(bindings.last().1)
    } else {
        action_for(bindings.drop_last(), key)
    }
}

/// An entity of the scene: identity, path, animation, collider, visibility,
/// draw layer and key bindings.
pub struct Sprite {
    /// A random identifier; none when the system had no random bytes to give.
    pub id: Option<u128>,
    pub tdid: u64,
    pub tdname: String,
    pub trajectory: Trajectory,
    pub animation: Animation,
    pub visible: bool,
    pub layer: i32,
    /// Key bindings, each to the number of an action of the scene's owner.
    pub input_actions: Vec<(Key, usize)>,
    pub collider: Collider,
}

impl Sprite {
    /// The shape every entity keeps.
    pub open spec fn wf(&self) -> bool {
        &&& self.animation.wf()
        &&& frames_fit(self.animation.frames@)
    }

    pub open spec fn size_spec(&self) -> Size {
        Size {
            width: frames_width(self.animation.frames@) as u32,
            height: frames_height(self.animation.frames@) as u32,
        }
    }

    /// A visible entity of class `tdid`/`tdname` on draw layer `layer`, standing
    /// still at the origin with an empty picture.
    pub fn new(tdid: u64, tdname: String, layer: i32) -> (r: Sprite)
        ensures
            r.wf(),
            r.tdid == tdid,
            r.tdname@ == tdname@,
            r.layer == layer,
            r.visible,
            r.trajectory.direction == Direction::Unset,
            r.trajectory.fresh(),
            r.animation.kind == AnimationKind::Static,
            r.input_actions@.len() == 0,
            r.collider == (Collider {
                offset: Coord { x: 0, y: 0 },
                size: Size { width: 0, height: 0 },
                is_active: true,
            }),
    {
        let origin = Position { x: XTermPosition::Coord(0), y: YTermPosition::Coord(0) };
        let trajectory = Trajectory::new_none(origin, origin, Direction::Unset);
        let blank = Frame::new("");
        proof {
            reveal_strlit("");
            assert(lines_of(blank.ascii@) =~= Seq::<Seq<char>>::empty());
            assert(frames_fit(seq![blank]));
        }
        Sprite {
            id: fresh_id(),
            tdid,
            tdname,
            trajectory,
            animation: Animation::new_static(blank),
            visible: true,
            layer,
            input_actions: Vec::new(),
            collider: Collider::new(Coord { x: 0, y: 0 }, Size { width: 0, height: 0 }, true),
        }
    }

    pub fn id(&self) -> (r: Option<u128>)
        ensures
            r == self.id,
    {
        self.id
    }

    pub fn tdid(&self) -> (r: u64)
        ensures
            r == self.tdid,
    {
        self.tdid
    }

    pub fn tdname(&self) -> (r: String)
        ensures
            r@ == self.tdname@,
    {
        self.tdname.clone()
    }

    pub fn layer(&self) -> (r: i32)
        ensures
            r == self.layer,
    {
        self.layer
    }

    /// Whether the entity lets the scene end. A hidden entity never does; one on
    /// a scripted path follows its trajectory; any other follows its animation,
    /// so a static decoration never ends the scene.
    pub open spec fn done_spec(&self) -> bool {
        if !self.visible {
            false
        } else {
            match self.trajectory.direction {
                Direction::Linear | Direction::Circular | Direction::Relative => self.trajectory.is_done,
                _ => self.animation.done_spec(),
            }
        }
    }

    pub fn is_done(&self) -> (r: bool)
        ensures
            r == self.done_spec(),
    {
        if !self.visible {
            return false;
        }
        match self.trajectory.direction {
            Direction::Linear | Direction::Circular | Direction::Relative => self.trajectory.is_done,
            _ => self.animation.is_done(),
        }
    }

    /// Whether both clocks of the entity allow advancing at `tick`.
    pub open spec fn can_advance(&self, tick: usize) -> bool {
        &&& tick < usize::MAX
        &&& self.trajectory.started_tick_id matches Some(s) ==> s <= tick
        &&& self.animation.started_tick_id matches Some(s) ==> s <= tick
    }

    /// The entity after `advance(tick, terminal_size)`.
    pub open spec fn advanced(self, tick: usize, terminal_size: Size) -> Sprite {
        let now = self.trajectory.coordinate_at(tick as int);
        let next = self.trajectory.coordinate_at(tick + 1);
        Sprite {
            trajectory: self.trajectory.advanced(tick, terminal_size, self.size_spec()),
            animation: self.animation.advanced(tick, Some(now), Some(next)),
            ..self
        }
    }

    /// Step the entity to tick `tick_id`: read where it is now and where it will
    /// be next, move the trajectory's cursor, then step the animation with that
    /// movement.
    pub fn advance(&mut self, tick_id: usize, terminal_size: Size)
        requires
            old(self).wf(),
            old(self).can_advance(tick_id),
        ensures
            final(self).wf(),
            *final(self) == old(self).advanced(tick_id, terminal_size),
            ({
                let now = old(self).trajectory.coordinate_at(tick_id as int);
                let next = old(self).trajectory.coordinate_at(tick_id + 1);
                &&& final(self).trajectory.is_done == old(self).trajectory.done_after(
                    tick_id,
                    terminal_size,
                    old(self).size_spec(),
                )
                &&& final(self).trajectory.started_tick_id == Some(
                    old(self).trajectory.start_for(tick_id) as usize,
                )
                &&& final(self).trajectory.path@ == old(self).trajectory.path@
                &&& final(self).animation.started_tick_id == Some(
                    old(self).animation.start_for(tick_id) as usize,
                )
                &&& (old(self).animation.kind == AnimationKind::MovementBased ==> {
                    let moved_to = if old(self).animation.at_end() || next == now {
                        old(self).animation.current_frame_id as int
                    } else {
                        old(self).animation.moved_frame()
                    };
                    final(self).animation.current_frame_id == moved_to
                })
                &&& (old(self).animation.kind == AnimationKind::TickBased ==> {
                    let elapsed = tick_id - old(self).animation.start_for(tick_id);
                    final(self).animation.current_frame_id == old(self).animation.tick_frame(elapsed)
                })
            }),
            final(self).visible == old(self).visible,
            final(self).layer == old(self).layer,
            final(self).collider == old(self).collider,
            final(self).input_actions@ == old(self).input_actions@,
            final(self).tdid == old(self).tdid,
            final(self).trajectory.direction == old(self).trajectory.direction,
            final(self).trajectory.parent == old(self).trajectory.parent,
            final(self).trajectory.offset == old(self).trajectory.offset,
            final(self).animation.frames@ == old(self).animation.frames@,
            final(self).animation.kind == old(self).animation.kind,
    {
        let size = self.size();
        let new_coord = self.trajectory.get_coordinate(tick_id);
        let next_coord = self.trajectory.get_coordinate(tick_id + 1);
        self.trajectory.advance(tick_id, terminal_size, size);
        self.animation.advance(tick_id, Some(new_coord), Some(next_coord));
    }

    /// Width and height of the largest frame of the animation.
    pub fn size(&self) -> (r: Size)
        requires
            self.wf(),
        ensures
            r == self.size_spec(),
            r.width <= i32::MAX,
            r.height <= i32::MAX,
    {
        Size { width: self.get_max_frame_width(), height: self.get_max_frame_height() }
    }

    pub fn is_visible(&self) -> (r: bool)
        ensures
            r == self.visible,
    {
        self.visible
    }

    pub fn set_visible(&mut self, is_visible: bool)
        ensures
            final(self).visible == is_visible,
            final(self).wf() == old(self).wf(),
            final(self).trajectory == old(self).trajectory,
            final(self).animation == old(self).animation,
            final(self).collider == old(self).collider,
            final(self).layer == old(self).layer,
            final(self).input_actions@ == old(self).input_actions@,
    {
        self.visible = is_visible;
    }

    pub fn current_frame(&self) -> (r: &Frame)
        requires
            self.wf(),
            self.animation.frames@.len() > 0,
        ensures
            *r == self.animation.frames@[self.animation.current_frame_id as int],
    {
        self.animation.frame()
    }

    pub fn get_max_frame_width(&self) -> (r: u32)
        requires
            self.wf(),
        ensures
            r == frames_width(self.animation.frames@),
            r <= i32::MAX,
    {
        let ghost fs = self.animation.frames@;
        let mut best: u32 = 0;
        let mut i: usize = 0;
        while i < self.animation.frames.len()
            invariant
                fs == self.animation.frames@,
                frames_fit(fs),
                i <= fs.len(),
                best == frames_width(fs.take(i as int)),
                best <= i32::MAX,
            decreases fs.len() - i,
        {
            let w = self.animation.frames[i].get_width();
            proof {
                assert(fs.take(i + 1).drop_last() =~= fs.take(i as int));
                assert(fs.take(i + 1).last() == fs[i as int]);
            }
            if w > best {
                best = w;
            }
            i = i + 1;
        }
        proof {
            assert(fs.take(i as int) =~= fs);
        }
        best
    }

    pub fn get_max_frame_height(&self) -> (r: u32)
        requires
            self.wf(),
        ensures
            r == frames_height(self.animation.frames@),
            r <= i32::MAX,
    {
        let ghost fs = self.animation.frames@;
        let mut best: u32 = 0;
        let mut i: usize = 0;
        while i < self.animation.frames.len()
            invariant
                fs == self.animation.frames@,
                frames_fit(fs),
                i <= fs.len(),
                best == frames_height(fs.take(i as int)),
                best <= i32::MAX,
            decreases fs.len() - i,
        {
            let h = self.animation.frames[i].get_height();
            proof {
                assert(fs.take(i + 1).drop_last() =~= fs.take(i as int));
                assert(fs.take(i + 1).last() == fs[i as int]);
            }
            if h > best {
                best = h;
            }
            i = i + 1;
        }
        proof {
            assert(fs.take(i as int) =~= fs);
        }
        best
    }

    /// Where the entity's own path puts it now (a relative entity is placed by
    /// the scene, from its parent).
    pub fn current_coordinate(&self) -> (r: Coord)
        ensures
            r == self.trajectory.current_spec(),
    {
        self.trajectory.current_coordinate()
    }

    pub fn set_trajectory(&mut self, trajectory: Trajectory)
        ensures
            final(self).trajectory == trajectory,
            final(self).wf() == old(self).wf(),
            final(self).animation == old(self).animation,
            final(self).collider == old(self).collider,
            final(self).visible == old(self).visible,
            final(self).layer == old(self).layer,
            final(self).input_actions@ == old(self).input_actions@,
    {
        self.trajectory = trajectory;
    }

    pub fn trajectory(&mut self) -> (r: &mut Trajectory)
        ensures
            *r == old(self).trajectory,
            *final(self) == (Sprite { trajectory: *final(r), ..*old(self) }),
    {
        &mut self.trajectory
    }

    /// Recompute the path of an entity that does not follow a parent.
    pub fn compute_path(&mut self, terminal_size: Size)
        requires
            old(self).wf(),
            old(self).trajectory.direction != Direction::Relative,
            terminal_size.width <= i32::MAX,
            terminal_size.height <= i32::MAX,
            old(self).trajectory.path_fits(terminal_size, old(self).size_spec()),
        ensures
            final(self).wf(),
            final(self).trajectory.path@ == crate::trajectory::shifted(
                old(self).trajectory.base_path(terminal_size, old(self).size_spec()),
                old(self).trajectory.offset,
            ),
            *final(self) == (Sprite {
                trajectory: Trajectory { path: final(self).trajectory.path, ..old(self).trajectory },
                ..*old(self)
            }),
    {
        let size = self.size();
        self.trajectory.compute_path(terminal_size, size);
    }

    /// Replace the animation; an entity without a collider then gets one that
    /// covers its largest frame.
    pub fn set_animation(&mut self, animation: Animation)
        requires
            animation.wf(),
            frames_fit(animation.frames@),
        ensures
            final(self).wf(),
            final(self).animation == animation,
            final(self).collider == if old(self).collider.size.width == 0
                && old(self).collider.size.height == 0 {
                Collider {
                    offset: Coord { x: 0, y: 0 },
                    size: final(self).size_spec(),
                    is_active: true,
                }
            } else {
                old(self).collider
            },
            final(self).trajectory == old(self).trajectory,
            final(self).visible == old(self).visible,
            final(self).layer == old(self).layer,
            final(self).input_actions@ == old(self).input_actions@,
    {
        self.animation = animation;
        if self.collider.is_null() {
            let height = self.get_max_frame_height();
            let width = self.get_max_frame_width();
            self.collider = Collider::new(Coord { x: 0, y: 0 }, Size { width, height }, true);
        }
    }

    pub fn animation(&self) -> (r: &Animation)
        ensures
            *r == self.animation,
    {
        &self.animation
    }

    pub fn reset_animation(&mut self)
        requires
            old(self).wf(),
        ensures
            final(self).wf(),
            final(self).animation.current_frame_id == 0,
            !final(self).animation.is_done,
            final(self).animation.started_tick_id is None,
            final(self).animation.frames@ == old(self).animation.frames@,
            final(self).animation.kind == old(self).animation.kind,
            final(self).trajectory == old(self).trajectory,
            final(self).visible == old(self).visible,
            final(self).collider == old(self).collider,
    {
        self.animation.reset()
    }

    /// Bind `key` to action `action`, replacing an earlier binding of that key.
    pub fn on_key(&mut self, key: Key, action: usize)
        ensures
            action_for(final(self).input_actions@, key) == Some(action),
            forall|k: Key| k != key ==> action_for(final(self).input_actions@, k) == action_for(
                old(self).input_actions@,
                k,
            ),
            final(self).wf() == old(self).wf(),
            final(self).trajectory == old(self).trajectory,
            final(self).animation == old(self).animation,
            final(self).collider == old(self).collider,
            final(self).visible == old(self).visible,
    {
        self.input_actions.push((key, action));
        proof {
            assert(final(self).input_actions@.drop_last() =~= old(self).input_actions@);
        }
    }

    /// The action bound to `key`, if any.
    pub fn handle_input(&self, key: Key) -> (r: Option<usize>)
        ensures
            r == action_for(self.input_actions@, key),
    {
        let ghost b = self.input_actions@;
        let mut i: usize = self.input_actions.len();
        proof {
            assert(b.take(i as int) =~= b);
        }
        while i > 0
            invariant
                b == self.input_actions@,
                i <= b.len(),
                action_for(b, key) == action_for(b.take(i as int), key),
            decreases i,
        {
            let entry = self.input_actions[i - 1];
            proof {
                assert(b.take(i as int).drop_last() =~= b.take(i - 1));
            }
            if entry.0 == key {
                return Some(entry.1);
            }
            i = i - 1;
        }
        None
    }

    pub fn collider(&mut self) -> (r: &mut Collider)
        ensures
            *r == old(self).collider,
            *final(self) == (Sprite { collider: *final(r), ..*old(self) }),
    {
        &mut self.collider
    }

    pub fn set_collider(&mut self, collider: Collider)
        ensures
            final(self).collider == collider,
            final(self).wf() == old(self).wf(),
            final(self).trajectory == old(self).trajectory,
            final(self).animation == old(self).animation,
            final(self).visible == old(self).visible,
            final(self).layer == old(self).layer,
            final(self).input_actions@ == old(self).input_actions@,
    {
        self.collider = collider;
    }
}

} // verus!
