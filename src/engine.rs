use vstd::prelude::*;

use crate::scene::{all_done_spec, Scene};
use crate::sprite::{action_for, Key};

verus! {

/// Width and height of a terminal or of an occupant, in cells.
#[derive(Debug, Clone, Copy, PartialEq, Eq, Structural)]
pub struct Size {
    pub width: u32,
    pub height: u32,
}

impl Size {
    pub fn new(width: u32, height: u32) -> (r: Size)
        ensures
            r.width == width,
            r.height == height,
    {
        Size { width, height }
    }

    pub fn width(&self) -> (r: u32)
        ensures
            r == self.width,
    {
        self.width
    }

    pub fn height(&self) -> (r: u32)
        ensures
            r == self.height,
    {
        self.height
    }
}


/// A plain pair of coordinates.
#[derive(Debug, Clone, Copy, PartialEq, Eq, Structural)]
pub struct Coordinate {
    pub x: i32,
    pub y: i32,
}

/// Size used when no terminal is attached.
pub const DEFAULT_TERMINAL_WIDTH: u16 = 100;

pub const DEFAULT_TERMINAL_HEIGHT: u16 = 50;

/// Relies on terminal_size::terminal_size: the width and height of the terminal
/// attached to stdout, stderr or stdin, or nothing when there is none. What it
/// returns depends on the machine; a size it gives is never zero.
#[verifier::external_body]
fn query_terminal_size() -> (r: Option<(u16, u16)>)
    ensures
        r matches Some((w, h)) ==> w > 0 && h > 0,
{
    match terminal_size::terminal_size() {
        Some((terminal_size::Width(w), terminal_size::Height(h))) => Some((w, h)),
        None => None,
    }
}

/// The queried size, or the fallback size when the query found no terminal.
pub fn terminal_size_or_default(queried: Option<(u16, u16)>) -> (r: (u16, u16))
    ensures
        r == match queried {
            Some(s) => s,
            None => (DEFAULT_TERMINAL_WIDTH, DEFAULT_TERMINAL_HEIGHT),
        },
{
    match queried {
        Some(s) => s,
        None => (DEFAULT_TERMINAL_WIDTH, DEFAULT_TERMINAL_HEIGHT),
    }
}

/// Width and height of the terminal, in cells; the fallback size without one.
pub fn get_terminal_size() -> (r: (u16, u16))
    ensures
        r.0 > 0,
        r.1 > 0,
{
    terminal_size_or_default(query_terminal_size())
}

/// What a key press does to the loop.
#[derive(Debug, Clone, PartialEq, Eq)]
pub enum InputOutcome {
    /// The interrupt key ended the loop.
    Interrupted,
    /// The interrupt key came while interrupts are ignored.
    Ignored,
    /// The key goes to these entities, each with the action it is bound to.
    Actions(Vec<(usize, usize)>),
}

/// The state of the tick loop: the tick counter, why it stopped, and its
/// lifetime.
pub struct RenderEngine {
    /// Milliseconds each tick lasts at least.
    pub tick_duration_ms: u64,
    pub terminal_size: Size,
    pub stop_on_sigint: bool,
    pub stopped: bool,
    pub killed: bool,
    pub tick_id: usize,
    /// Ticks to live; 0 runs until the scene ends.
    pub ttl: usize,
}

/// The entities that have an action for `key`, in index order, each with it.
pub open spec fn bound_actions(sprites: Seq<crate::sprite::Sprite>, key: Key) -> Seq<(usize, usize)>
    decreases sprites.len(),
{
    if sprites.len() == 0 {
        Seq::empty()
    } else {
        let rest = bound_actions(sprites.drop_last(), key);
        match action_for(sprites.last().input_actions@, key) {
            Some(a) => rest.push(((sprites.len() - 1) as usize, a)),
            None => rest,
        }
    }
}

impl RenderEngine {
    /// An engine for a terminal of `terminal_size` that runs `ttl` ticks at most
    /// (0: until the scene ends).
    pub fn with_terminal_size(ttl: usize, terminal_size: Size) -> (r: RenderEngine)
        ensures
            r.ttl == ttl,
            r.terminal_size == terminal_size,
            r.tick_duration_ms == 5,
            r.stop_on_sigint,
            !r.stopped,
            !r.killed,
            r.tick_id == 0,
    {
        RenderEngine {
            tick_duration_ms: 5,
            terminal_size,
            stop_on_sigint: true,
            stopped: false,
            killed: false,
            tick_id: 0,
            ttl,
        }
    }

    /// An engine for the attached terminal (or the fallback size).
    pub fn new(ttl: usize) -> (r: RenderEngine)
        ensures
            r.ttl == ttl,
            r.tick_duration_ms == 5,
            r.stop_on_sigint,
            !r.stopped,
            !r.killed,
            r.tick_id == 0,
    {
        let (w, h) = get_terminal_size();
        RenderEngine::with_terminal_size(ttl, Size { width: w as u32, height: h as u32 })
    }

    pub fn killed(&self) -> (r: bool)
        ensures
            r == self.killed,
    {
        self.killed
    }

    pub fn stopped(&self) -> (r: bool)
        ensures
            r == self.stopped,
    {
        self.stopped
    }

    pub fn stop(&mut self)
        ensures
            *final(self) == (RenderEngine { stopped: true, ..*old(self) }),
    {
        self.stopped = true;
    }

    pub fn terminal_size(&self) -> (r: Size)
        ensures
            r == self.terminal_size,
    {
        self.terminal_size
    }

    pub fn tick_id(&self) -> (r: usize)
        ensures
            r == self.tick_id,
    {
        self.tick_id
    }

    /// Whether the interrupt key ends the loop.
    pub fn set_stop_on_interrupt(&mut self, stop: bool)
        ensures
            *final(self) == (RenderEngine { stop_on_sigint: stop, ..*old(self) }),
    {
        self.stop_on_sigint = stop;
    }

    /// Start a run: tick 0, neither stopped nor interrupted.
    pub fn begin(&mut self)
        ensures
            *final(self) == (RenderEngine { tick_id: 0, stopped: false, killed: false, ..*old(self) }),
    {
        self.tick_id = 0;
        self.stopped = false;
        self.killed = false;
    }

    /// Move to the next tick.
    pub fn next_tick(&mut self)
        requires
            old(self).tick_id < usize::MAX,
        ensures
            *final(self) == (RenderEngine { tick_id: (old(self).tick_id + 1) as usize, ..*old(self) }),
    {
        self.tick_id = self.tick_id + 1;
    }

    /// Handle one key press: the interrupt key (`ctrl` + `c`) ends the loop
    /// unless interrupts are ignored; any other key goes to every entity bound
    /// to it.
    pub fn on_key(&mut self, scene: &Scene, key: Key, ctrl: bool) -> (r: InputOutcome)
        ensures
            (ctrl && key == Key::Char('c')) ==> {
                if old(self).stop_on_sigint {
                    &&& r == InputOutcome::Interrupted
                    &&& *final(self) == (RenderEngine { killed: true, ..*old(self) })
                } else {
                    &&& r == InputOutcome::Ignored
                    &&& *final(self) == *old(self)
                }
            },
            !(ctrl && key == Key::Char('c')) ==> {
                &&& *final(self) == *old(self)
                &&& r matches InputOutcome::Actions(v) && v@ == bound_actions(scene.sprites@, key)
            },
    {
        if ctrl && key == Key::Char('c') {
            if self.stop_on_sigint {
                self.killed = true;
                return InputOutcome::Interrupted;
            }
            return InputOutcome::Ignored;
        }
        let mut out: Vec<(usize, usize)> = Vec::new();
        let mut i: usize = 0;
        while i < scene.sprites.len()
            invariant
                i <= scene.sprites@.len(),
                out@ == bound_actions(scene.sprites@.take(i as int), key),
            decreases scene.sprites@.len() - i,
        {
            let a = scene.sprites[i].handle_input(key);
            proof {
                assert(scene.sprites@.take(i + 1).drop_last() =~= scene.sprites@.take(i as int));
            }
            match a {
                Some(action) => out.push((i, action)),
                None => {},
            }
            i = i + 1;
        }
        proof {
            assert(scene.sprites@.take(i as int) =~= scene.sprites@);
        }
        InputOutcome::Actions(out)
    }

    /// Whether the loop ends after this tick: stopped, interrupted, out of
    /// ticks, or every visible entity done.
    pub fn should_end(&self, scene: &Scene) -> (r: bool)
        ensures
            r == (self.stopped || self.killed || (self.ttl > 0 && self.tick_id >= self.ttl)
                || all_done_spec(scene.sprites@)),
    {
        self.stopped || self.killed || (self.ttl > 0 && self.tick_id >= self.ttl) || scene.all_done()
    }
}

} // verus!
