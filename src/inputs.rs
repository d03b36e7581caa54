use vstd::prelude::*;

use crate::geometry::{screen_rect, Point, Rect, UNIT};
use crate::keyset::KeySet;
use crate::status::KeyStatus;

verus! {

/// The inputs of one frame. Lengths are in units of `1 / UNIT` screen
/// heights, times in nanoseconds.
#[derive(Debug)]
pub struct FrameInputs {
    pub screen_rect: Rect,
    pub mouse_pos: Point,
    pub mouse_delta: Point,
    pub prev_keys: KeySet,
    pub curr_keys: KeySet,
    pub repeat_keys: KeySet,
    pub lmb: KeyStatus,
    pub rmb: KeyStatus,
    pub mmb: KeyStatus,
    pub scroll_delta: i64,
    pub t: u64,
    pub dt: u64,
    pub frame: u32,
    pub seed: u32,
}

impl FrameInputs {
    /// `k` went down during this frame.
    pub open spec fn pressed_spec(&self, k: u32) -> bool {
        self.curr_keys@.contains(k) && !self.prev_keys@.contains(k)
    }

    /// `k` went up during this frame.
    pub open spec fn released_spec(&self, k: u32) -> bool {
        !self.curr_keys@.contains(k) && self.prev_keys@.contains(k)
    }

    /// Whether `keycode` is down.
    pub fn key_held(&self, keycode: u32) -> (r: bool)
        ensures
            r == self.curr_keys@.contains(keycode),
    {
        self.curr_keys.contains(keycode)
    }

    /// Whether `keycode` went down during this frame.
    pub fn key_pressed(&self, keycode: u32) -> (r: bool)
        ensures
            r == self.pressed_spec(keycode),
    {
        self.curr_keys.contains(keycode) && !self.prev_keys.contains(keycode)
    }

    /// Whether `keycode` went down, or repeated while held, during this frame.
    pub fn key_pressed_or_repeating(&self, keycode: u32) -> (r: bool)
        ensures
            r == (self.pressed_spec(keycode) || self.repeat_keys@.contains(keycode)),
    {
        (self.curr_keys.contains(keycode) && !self.prev_keys.contains(keycode))
            || self.repeat_keys.contains(keycode)
    }

    /// Whether `keycode` went up during this frame.
    pub fn key_released(&self, keycode: u32) -> (r: bool)
        ensures
            r == self.released_spec(keycode),
    {
        !self.curr_keys.contains(keycode) && self.prev_keys.contains(keycode)
    }

    /// The inputs before the first frame: nothing held, pointer at the
    /// origin, clock at zero, on a screen of aspect ratio `a`.
    pub fn new(a: i64, seed: u32) -> (r: FrameInputs)
        ensures
            r.screen_rect == (Rect { x: 0, y: 0, w: a, h: UNIT }),
            r.mouse_pos == (Point { x: 0, y: 0 }),
            r.mouse_delta == (Point { x: 0, y: 0 }),
            r.prev_keys@ == Set::<u32>::empty(),
            r.curr_keys@ == Set::<u32>::empty(),
            r.repeat_keys@ == Set::<u32>::empty(),
            r.lmb == KeyStatus::Released,
            r.rmb == KeyStatus::Released,
            r.mmb == KeyStatus::Released,
            r.scroll_delta == 0,
            r.t == 0,
            r.dt == 0,
            r.frame == 0,
            r.seed == seed,
    {
        FrameInputs {
            screen_rect: screen_rect(a),
            mouse_pos: Point::zero(),
            mouse_delta: Point::zero(),
            prev_keys: KeySet::new(),
            curr_keys: KeySet::new(),
            repeat_keys: KeySet::new(),
            lmb: KeyStatus::Released,
            rmb: KeyStatus::Released,
            mmb: KeyStatus::Released,
            scroll_delta: 0,
            t: 0,
            dt: 0,
            frame: 0,
            seed,
        }
    }

    /// A separate copy with the same contents.
    pub fn snapshot(&self) -> (r: FrameInputs)
        ensures
            r.same_as(*self),
    {
        FrameInputs {
            screen_rect: self.screen_rect,
            mouse_pos: self.mouse_pos,
            mouse_delta: self.mouse_delta,
            prev_keys: self.prev_keys.copy(),
            curr_keys: self.curr_keys.copy(),
            repeat_keys: self.repeat_keys.copy(),
            lmb: self.lmb,
            rmb: self.rmb,
            mmb: self.mmb,
            scroll_delta: self.scroll_delta,
            t: self.t,
            dt: self.dt,
            frame: self.frame,
            seed: self.seed,
        }
    }

    /// Equal contents: the same key sets and the same other fields.
    pub open spec fn same_as(self, o: FrameInputs) -> bool {
        &&& self.same_keys(o)
        &&& self.same_buttons(o)
        &&& self.same_motion(o)
        &&& self.same_clock(o)
    }

    pub open spec fn same_keys(self, o: FrameInputs) -> bool {
        &&& self.prev_keys@ == o.prev_keys@
        &&& self.curr_keys@ == o.curr_keys@
        &&& self.repeat_keys@ == o.repeat_keys@
    }

    pub open spec fn same_buttons(self, o: FrameInputs) -> bool {
        &&& self.lmb == o.lmb
        &&& self.rmb == o.rmb
        &&& self.mmb == o.mmb
    }

    pub open spec fn same_motion(self, o: FrameInputs) -> bool {
        &&& self.screen_rect == o.screen_rect
        &&& self.mouse_pos == o.mouse_pos
        &&& self.mouse_delta == o.mouse_delta
        &&& self.scroll_delta == o.scroll_delta
    }

    pub open spec fn same_clock(self, o: FrameInputs) -> bool {
        &&& self.t == o.t
        &&& self.dt == o.dt
        &&& self.frame == o.frame
        &&& self.seed == o.seed
    }
}

/// In every frame a key is "pressed" exactly when it is held now and was not
/// held in the previous frame, "released" exactly in the converse case, and
/// never both.
pub proof fn lemma_edges_exclusive(f: FrameInputs, k: u32)
    ensures
        f.pressed_spec(k) <==> (f.curr_keys@.contains(k) && !f.prev_keys@.contains(k)),
        f.released_spec(k) <==> (!f.curr_keys@.contains(k) && f.prev_keys@.contains(k)),
        !(f.pressed_spec(k) && f.released_spec(k)),
{
}

} // verus!
