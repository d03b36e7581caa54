use vstd::prelude::*;

use crate::event::{scroll_amount, Action, InputEvent, MouseButton};
use crate::geometry::{aspect, aspect_of, normalize, normalized, screen_rect, Point, Rect, UNIT};
use crate::inputs::FrameInputs;
use crate::seed::{mix, next_seed};
use crate::status::{collapsed, status_after_event, KeyStatus};

verus! {

/// `a + b`, held within the range of `i64`.
pub open spec fn sat_add(a: i64, b: i64) -> i64 {
    if a + b > i64::MAX {
        i64::MAX
    } else if a + b < i64::MIN {
        i64::MIN
    } else {
        (a + b) as i64
    }
}

/// The state that events accumulate into between frame boundaries.
/// `current` holds the live key sets, button statuses, scroll sum, pointer
/// position of the last frame, clock and seed; `instant_mouse_pos` is the
/// latest pointer position; `t_last` the time of the last frame boundary in
/// nanoseconds; `xres` and `yres` the resolution in pixels.
#[derive(Debug)]
pub struct Application {
    pub xres: u32,
    pub yres: u32,
    pub t_last: u64,
    pub instant_mouse_pos: Point,
    pub current: FrameInputs,
}

impl Application {
    pub open spec fn wf(&self) -> bool {
        &&& self.yres > 0
        &&& self.instant_mouse_pos.in_range()
        &&& self.current.mouse_pos.in_range()
    }

    /// Everything but the pointer, the resolution and the live inputs is as in `o`.
    pub open spec fn same_frame_state(self, o: Application) -> bool {
        &&& self.xres == o.xres
        &&& self.yres == o.yres
        &&& self.t_last == o.t_last
        &&& self.instant_mouse_pos == o.instant_mouse_pos
    }

    /// A key event: a press of a held key marks it repeating, a press of
    /// another key holds it, a release lets it go.
    pub open spec fn key_applied(self, o: Application, code: u32, pressed: bool) -> bool {
        &&& self.same_frame_state(o)
        &&& self.current.same_buttons(o.current)
        &&& self.current.same_motion(o.current)
        &&& self.current.same_clock(o.current)
        &&& self.current.prev_keys@ == o.current.prev_keys@
        &&& if pressed && o.current.curr_keys@.contains(code) {
            &&& self.current.curr_keys@ == o.current.curr_keys@
            &&& self.current.repeat_keys@ == o.current.repeat_keys@.insert(code)
        } else if pressed {
            &&& self.current.curr_keys@ == o.current.curr_keys@.insert(code)
            &&& self.current.repeat_keys@ == o.current.repeat_keys@
        } else {
            &&& self.current.curr_keys@ == o.current.curr_keys@.remove(code)
            &&& self.current.repeat_keys@ == o.current.repeat_keys@
        }
    }

    /// A button event sets that button's status, whatever it was.
    pub open spec fn button_applied(self, o: Application, b: MouseButton, pressed: bool) -> bool {
        &&& self.same_frame_state(o)
        &&& self.current.same_keys(o.current)
        &&& self.current.same_motion(o.current)
        &&& self.current.same_clock(o.current)
        &&& self.current.lmb == (if b == MouseButton::Left {
            status_after_event(pressed)
        } else {
            o.current.lmb
        })
        &&& self.current.rmb == (if b == MouseButton::Right {
            status_after_event(pressed)
        } else {
            o.current.rmb
        })
        &&& self.current.mmb == (if b == MouseButton::Middle {
            status_after_event(pressed)
        } else {
            o.current.mmb
        })
    }

    /// A scroll event adds its amount to the frame's scroll sum.
    pub open spec fn scroll_applied(self, o: Application, delta: i64) -> bool {
        &&& self.same_frame_state(o)
        &&& self.current.same_keys(o.current)
        &&& self.current.same_buttons(o.current)
        &&& self.current.same_clock(o.current)
        &&& self.current.screen_rect == o.current.screen_rect
        &&& self.current.mouse_pos == o.current.mouse_pos
        &&& self.current.mouse_delta == o.current.mouse_delta
        &&& self.current.scroll_delta == sat_add(o.current.scroll_delta, delta)
    }

    /// A cursor event replaces the latest pointer position, scaled by the
    /// vertical resolution; the frame's own position waits for the boundary.
    pub open spec fn cursor_applied(self, o: Application, x: i32, y: i32) -> bool {
        &&& self.xres == o.xres
        &&& self.yres == o.yres
        &&& self.t_last == o.t_last
        &&& self.instant_mouse_pos.x == normalized(x as int, o.yres as int)
        &&& self.instant_mouse_pos.y == normalized(y as int, o.yres as int)
        &&& self.current.same_as(o.current)
    }

    /// A resize to a non-zero height records the resolution and sets the
    /// screen's width to the new aspect ratio; one to a zero height (a
    /// minimised window) leaves both as they were.
    pub open spec fn resize_applied(self, o: Application, width: u32, height: u32) -> bool {
        &&& self.t_last == o.t_last
        &&& self.instant_mouse_pos == o.instant_mouse_pos
        &&& self.current.same_keys(o.current)
        &&& self.current.same_buttons(o.current)
        &&& self.current.same_clock(o.current)
        &&& self.current.mouse_pos == o.current.mouse_pos
        &&& self.current.mouse_delta == o.current.mouse_delta
        &&& self.current.scroll_delta == o.current.scroll_delta
        &&& if height > 0 {
            &&& self.xres == width
            &&& self.yres == height
            &&& self.current.screen_rect == (Rect {
                x: 0,
                y: 0,
                w: aspect_of(width as int, height as int) as i64,
                h: UNIT,
            })
        } else {
            &&& self.xres == o.xres
            &&& self.yres == o.yres
            &&& self.current.screen_rect == o.current.screen_rect
        }
    }

    /// The whole state is as in `o`.
    pub open spec fn unchanged(self, o: Application) -> bool {
        self.same_frame_state(o) && self.current.same_as(o.current)
    }

    /// The effect of a frame boundary at time `now` on state `o`: `self` is the
    /// state after it and `snap` the inputs it hands out.
    pub open spec fn frame_ended(self, o: Application, snap: FrameInputs, now: u64) -> bool {
        &&& snap.dt == now.saturating_sub(o.t_last)
        &&& snap.t == o.current.t.saturating_add(snap.dt)
        &&& snap.frame == o.current.frame.saturating_add(1)
        &&& snap.mouse_pos == o.instant_mouse_pos
        &&& snap.mouse_delta.x == snap.mouse_pos.x - o.current.mouse_pos.x
        &&& snap.mouse_delta.y == snap.mouse_pos.y - o.current.mouse_pos.y
        &&& snap.screen_rect == o.current.screen_rect
        &&& snap.same_keys(o.current)
        &&& snap.same_buttons(o.current)
        &&& snap.scroll_delta == o.current.scroll_delta
        &&& snap.seed == o.current.seed
        &&& self.xres == o.xres
        &&& self.yres == o.yres
        &&& self.t_last == now
        &&& self.instant_mouse_pos == o.instant_mouse_pos
        &&& self.current.prev_keys@ == o.current.curr_keys@
        &&& self.current.curr_keys@ == o.current.curr_keys@
        &&& self.current.repeat_keys@ == Set::<u32>::empty()
        &&& self.current.lmb == collapsed(o.current.lmb)
        &&& self.current.rmb == collapsed(o.current.rmb)
        &&& self.current.mmb == collapsed(o.current.mmb)
        &&& self.current.scroll_delta == 0
        &&& self.current.seed == mix(o.current.seed)
        &&& self.current.screen_rect == snap.screen_rect
        &&& self.current.mouse_pos == snap.mouse_pos
        &&& self.current.mouse_delta == snap.mouse_delta
        &&& self.current.t == snap.t
        &&& self.current.dt == snap.dt
        &&& self.current.frame == snap.frame
    }

    /// The effect of absorbing event `e` on state `o`.
    pub open spec fn event_applied(self, o: Application, e: InputEvent) -> bool {
        match e {
            InputEvent::Key { code, pressed } => self.key_applied(o, code, pressed),
            InputEvent::Button { button, pressed } => self.button_applied(o, button, pressed),
            InputEvent::Scroll { delta } => self.scroll_applied(o, scroll_amount(delta)),
            InputEvent::CursorMoved { x, y } => self.cursor_applied(o, x, y),
            InputEvent::Resized { width, height } => self.resize_applied(o, width, height),
            _ => self.unchanged(o),
        }
    }

    /// What the caller is asked to do after event `e`.
    pub open spec fn action_for(e: InputEvent) -> Action {
        match e {
            InputEvent::Resized { width, height } => Action::SetViewport { width, height },
            InputEvent::CloseRequested | InputEvent::LoopDestroyed => Action::Stop,
            _ => Action::Continue,
        }
    }
}

impl Application {
    /// The state at start-up on a window of `xres` by `yres` pixels, with the
    /// first seed and the current time in nanoseconds.
    pub fn new(xres: u32, yres: u32, seed: u32, now: u64) -> (r: Application)
        requires
            yres > 0,
        ensures
            r.wf(),
            r.xres == xres,
            r.yres == yres,
            r.t_last == now,
            r.instant_mouse_pos == (Point { x: 0, y: 0 }),
            r.current.screen_rect == (Rect {
                x: 0,
                y: 0,
                w: aspect_of(xres as int, yres as int) as i64,
                h: UNIT,
            }),
            r.current.mouse_pos == (Point { x: 0, y: 0 }),
            r.current.mouse_delta == (Point { x: 0, y: 0 }),
            r.current.prev_keys@ == Set::<u32>::empty(),
            r.current.curr_keys@ == Set::<u32>::empty(),
            r.current.repeat_keys@ == Set::<u32>::empty(),
            r.current.lmb == KeyStatus::Released,
            r.current.rmb == KeyStatus::Released,
            r.current.mmb == KeyStatus::Released,
            r.current.scroll_delta == 0,
            r.current.t == 0,
            r.current.dt == 0,
            r.current.frame == 0,
            r.current.seed == seed,
    {
        Application {
            xres,
            yres,
            t_last: now,
            instant_mouse_pos: Point::zero(),
            current: FrameInputs::new(aspect(xres, yres), seed),
        }
    }

    /// Folds a key event into the live key sets.
    pub fn on_key(&mut self, code: u32, pressed: bool)
        requires
            old(self).wf(),
        ensures
            final(self).wf(),
            final(self).key_applied(*old(self), code, pressed),
    {
        if pressed {
            if self.current.curr_keys.contains(code) {
                self.current.repeat_keys.insert(code);
            } else {
                self.current.curr_keys.insert(code);
            }
        } else {
            self.current.curr_keys.remove(code);
        }
    }

    /// Sets a button's status from a press or release event.
    pub fn on_button(&mut self, button: MouseButton, pressed: bool)
        requires
            old(self).wf(),
        ensures
            final(self).wf(),
            final(self).button_applied(*old(self), button, pressed),
    {
        let s = KeyStatus::from_event(pressed);
        match button {
            MouseButton::Left => self.current.lmb = s,
            MouseButton::Right => self.current.rmb = s,
            MouseButton::Middle => self.current.mmb = s,
        }
    }

    /// Adds a vertical scroll amount to the frame's sum.
    pub fn on_scroll(&mut self, delta: i64)
        requires
            old(self).wf(),
        ensures
            final(self).wf(),
            final(self).scroll_applied(*old(self), delta),
    {
        let s = self.current.scroll_delta;
        self.current.scroll_delta = if delta > 0 && s > i64::MAX - delta {
            i64::MAX
        } else if delta < 0 && s < i64::MIN - delta {
            i64::MIN
        } else {
            s + delta
        };
    }

    /// Records the latest pointer position, given in pixels.
    pub fn on_cursor_moved(&mut self, x: i32, y: i32)
        requires
            old(self).wf(),
        ensures
            final(self).wf(),
            final(self).cursor_applied(*old(self), x, y),
    {
        self.instant_mouse_pos = Point { x: normalize(x, self.yres), y: normalize(y, self.yres) };
    }

    /// Records a new window size.
    pub fn on_resize(&mut self, width: u32, height: u32)
        requires
            old(self).wf(),
        ensures
            final(self).wf(),
            final(self).resize_applied(*old(self), width, height),
    {
        if height > 0 {
            self.xres = width;
            self.yres = height;
            self.current.screen_rect = screen_rect(aspect(width, height));
        }
    }

    /// Absorbs one raw event. Never fails: events of no interest change
    /// nothing. Returns what the caller must do next.
    pub fn handle_event(&mut self, event: InputEvent) -> (r: Action)
        requires
            old(self).wf(),
        ensures
            final(self).wf(),
            final(self).event_applied(*old(self), event),
            r == Self::action_for(event),
    {
        match event {
            InputEvent::Key { code, pressed } => {
                self.on_key(code, pressed);
                Action::Continue
            },
            InputEvent::Button { button, pressed } => {
                self.on_button(button, pressed);
                Action::Continue
            },
            InputEvent::Scroll { delta } => {
                self.on_scroll(delta.amount());
                Action::Continue
            },
            InputEvent::CursorMoved { x, y } => {
                self.on_cursor_moved(x, y);
                Action::Continue
            },
            InputEvent::Resized { width, height } => {
                self.on_resize(width, height);
                Action::SetViewport { width, height }
            },
            InputEvent::CloseRequested | InputEvent::LoopDestroyed => Action::Stop,
            InputEvent::Ignored => Action::Continue,
        }
    }

    /// Ends the accumulation period at time `now` (nanoseconds). Advances the
    /// clock and frame counter, moves the frame's pointer position to the
    /// latest one, and returns the frame's inputs. Then starts the next
    /// period: this frame's held keys become the previous ones, the repeat
    /// set and scroll sum are emptied, the seed is mixed, and each button's
    /// transient status settles.
    pub fn end_frame(&mut self, now: u64) -> (snap: FrameInputs)
        requires
            old(self).wf(),
        ensures
            final(self).wf(),
            final(self).frame_ended(*old(self), snap, now),
    {
        let dt = now.saturating_sub(self.t_last);
        self.current.dt = dt;
        self.current.t = self.current.t.saturating_add(dt);
        self.t_last = now;
        self.current.frame = self.current.frame.saturating_add(1);
        self.current.mouse_delta = self.instant_mouse_pos.minus(self.current.mouse_pos);
        self.current.mouse_pos = self.instant_mouse_pos;
        let state = self.current.snapshot();
        self.current.prev_keys = self.current.curr_keys.copy();
        self.current.repeat_keys.clear();
        self.current.seed = next_seed(self.current.seed);
        self.current.scroll_delta = 0;
        self.current.lmb = self.current.lmb.collapse();
        self.current.mmb = self.current.mmb.collapse();
        self.current.rmb = self.current.rmb.collapse();
        state
    }
}

} // verus!
