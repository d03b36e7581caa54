use kapp::seed::{initial_seed, khash, next_seed, FALLBACK_SEED};
use kapp::{Action, Application, FrameInputs, FrameOutputs, InputEvent, KeySet, KeyStatus, MouseButton, Point, Rect, ScrollDelta, UNIT};

fn app() -> Application {
    Application::new(1600, 1600, 7, 0)
}

fn key(code: u32, pressed: bool) -> InputEvent {
    InputEvent::Key { code, pressed }
}

fn button(button: MouseButton, pressed: bool) -> InputEvent {
    InputEvent::Button { button, pressed }
}

#[test]
fn press_then_hold_key() {
    let mut a = app();
    assert_eq!(a.handle_event(key(30, true)), Action::Continue);
    let f1 = a.end_frame(1_000);
    assert_eq!(f1.curr_keys.codes(), vec![30]);
    assert!(f1.prev_keys.codes().is_empty());
    assert!(f1.key_pressed(30));
    let f2 = a.end_frame(2_000);
    assert_eq!(f2.curr_keys.codes(), vec![30]);
    assert_eq!(f2.prev_keys.codes(), vec![30]);
    assert!(!f2.key_pressed(30));
    assert!(f2.key_held(30));
}

#[test]
fn left_button_cycle() {
    let mut a = app();
    a.handle_event(button(MouseButton::Left, true));
    assert_eq!(a.end_frame(1).lmb, KeyStatus::JustPressed);
    assert_eq!(a.end_frame(2).lmb, KeyStatus::Pressed);
    a.handle_event(button(MouseButton::Left, false));
    assert_eq!(a.end_frame(3).lmb, KeyStatus::JustReleased);
    assert_eq!(a.end_frame(4).lmb, KeyStatus::Released);
}

#[test]
fn resize_sets_aspect() {
    let mut a = app();
    let r = a.handle_event(InputEvent::Resized { width: 800, height: 600 });
    assert_eq!(r, Action::SetViewport { width: 800, height: 600 });
    let f = a.end_frame(1);
    assert_eq!(f.screen_rect, Rect { x: 0, y: 0, w: 87381, h: UNIT });
    assert_eq!(f.screen_rect.h, 65536);
    assert_eq!((a.xres, a.yres), (800, 600));
}

#[test]
fn resize_to_zero_height_keeps_resolution() {
    let mut a = app();
    let r = a.handle_event(InputEvent::Resized { width: 0, height: 0 });
    assert_eq!(r, Action::SetViewport { width: 0, height: 0 });
    assert_eq!((a.xres, a.yres), (1600, 1600));
    assert_eq!(a.current.screen_rect.w, UNIT);
}

#[test]
fn repeated_key_down_marks_repeat_once() {
    let mut a = app();
    a.handle_event(key(5, true));
    assert!(a.current.repeat_keys.codes().is_empty());
    a.handle_event(key(5, true));
    a.handle_event(key(5, true));
    a.handle_event(key(5, true));
    assert_eq!(a.current.repeat_keys.codes(), vec![5]);
    assert_eq!(a.current.curr_keys.codes(), vec![5]);
    let f = a.end_frame(10);
    assert!(f.key_pressed_or_repeating(5));
    assert!(f.key_pressed(5));
    let g = a.end_frame(20);
    assert!(!g.key_pressed_or_repeating(5));
    assert!(g.repeat_keys.codes().is_empty());
}

#[test]
fn repeat_without_fresh_press() {
    let mut a = app();
    a.handle_event(key(9, true));
    a.end_frame(1);
    a.handle_event(key(9, true));
    let f = a.end_frame(2);
    assert!(!f.key_pressed(9));
    assert!(f.key_pressed_or_repeating(9));
}

#[test]
fn release_edge_and_exclusivity() {
    let mut a = app();
    a.handle_event(key(3, true));
    a.end_frame(1);
    a.handle_event(key(3, false));
    let f = a.end_frame(2);
    assert!(f.key_released(3));
    assert!(!f.key_pressed(3));
    assert!(!f.key_held(3));
    for k in 0..8u32 {
        assert!(!(f.key_pressed(k) && f.key_released(k)));
    }
}

#[test]
fn releasing_absent_key_is_no_op() {
    let mut a = app();
    a.handle_event(key(4, false));
    assert!(a.current.curr_keys.codes().is_empty());
    let mut s = KeySet::new();
    assert!(s.insert(1));
    assert!(!s.insert(1));
    s.remove(2);
    assert_eq!(s.codes(), vec![1]);
    s.remove(1);
    assert!(!s.contains(1));
}

#[test]
fn mouse_delta_between_frames() {
    let f0 = FrameInputs::new(UNIT, 1);
    assert_eq!(f0.mouse_delta, Point { x: 0, y: 0 });
    let mut a = Application::new(1200, 600, 1, 0);
    a.handle_event(InputEvent::CursorMoved { x: 300, y: -150 });
    assert_eq!(a.current.mouse_pos, Point { x: 0, y: 0 });
    let f1 = a.end_frame(1);
    assert_eq!(f1.mouse_pos, Point { x: 32768, y: -16384 });
    assert_eq!(f1.mouse_delta, Point { x: 32768, y: -16384 });
    a.handle_event(InputEvent::CursorMoved { x: 600, y: 0 });
    let f2 = a.end_frame(2);
    assert_eq!(f2.mouse_pos, Point { x: 65536, y: 0 });
    assert_eq!(f2.mouse_delta, Point { x: 32768, y: 16384 });
    let f3 = a.end_frame(3);
    assert_eq!(f3.mouse_delta, Point { x: 0, y: 0 });
}

#[test]
fn scroll_accumulates_and_resets() {
    let mut a = app();
    a.handle_event(InputEvent::Scroll { delta: ScrollDelta::Lines(UNIT) });
    a.handle_event(InputEvent::Scroll { delta: ScrollDelta::Pixels(2 * UNIT) });
    assert_eq!(a.end_frame(1).scroll_delta, 3 * UNIT);
    assert_eq!(a.end_frame(2).scroll_delta, 0);
    a.handle_event(InputEvent::Scroll { delta: ScrollDelta::Lines(i64::MAX) });
    a.handle_event(InputEvent::Scroll { delta: ScrollDelta::Pixels(5) });
    assert_eq!(a.end_frame(3).scroll_delta, i64::MAX);
}

#[test]
fn seed_sequence_is_reproducible() {
    assert_eq!(khash(0), 1739749167);
    assert_eq!(next_seed(1), 4141765189);
    assert_eq!(next_seed(next_seed(1)), 3811921771);
    let mut a = Application::new(10, 10, 1, 0);
    let mut b = Application::new(10, 10, 1, 999);
    assert_eq!(a.end_frame(5).seed, 1);
    assert_eq!(b.end_frame(123_456).seed, 1);
    assert_eq!(a.end_frame(6).seed, 4141765189);
    assert_eq!(b.end_frame(7).seed, 4141765189);
    assert_eq!(a.end_frame(8).seed, 3811921771);
}

#[test]
fn initial_seed_falls_back() {
    assert_eq!(initial_seed(Some(42)), 42);
    assert_eq!(initial_seed(None), FALLBACK_SEED);
    assert_eq!(FALLBACK_SEED, 34123123);
}

#[test]
fn clock_advances() {
    let mut a = Application::new(10, 10, 1, 1_000);
    let f1 = a.end_frame(1_500);
    assert_eq!((f1.dt, f1.t, f1.frame), (500, 500, 1));
    let f2 = a.end_frame(3_500);
    assert_eq!((f2.dt, f2.t, f2.frame), (2_000, 2_500, 2));
    let f3 = a.end_frame(3_000);
    assert_eq!((f3.dt, f3.t, f3.frame), (0, 2_500, 3));
}

#[test]
fn buttons_are_independent_and_last_event_wins() {
    let mut a = app();
    a.handle_event(button(MouseButton::Right, true));
    a.handle_event(button(MouseButton::Right, false));
    a.handle_event(button(MouseButton::Middle, true));
    let f = a.end_frame(1);
    assert_eq!(f.lmb, KeyStatus::Released);
    assert_eq!(f.rmb, KeyStatus::JustReleased);
    assert_eq!(f.mmb, KeyStatus::JustPressed);
    assert!(f.mmb.is_down());
    assert_eq!(KeyStatus::JustPressed.collapse(), KeyStatus::Pressed);
    assert_eq!(KeyStatus::Released.collapse(), KeyStatus::Released);
}

#[test]
fn close_stops_and_other_events_ignored() {
    let mut a = app();
    assert_eq!(a.handle_event(InputEvent::CloseRequested), Action::Stop);
    assert_eq!(a.handle_event(InputEvent::LoopDestroyed), Action::Stop);
    assert_eq!(a.handle_event(InputEvent::Ignored), Action::Continue);
    let f = a.end_frame(1);
    assert!(f.curr_keys.codes().is_empty());
    assert_eq!(f.frame, 1);
}

#[test]
fn outputs_start_empty() {
    let o: FrameOutputs<u8, Vec<u8>, char, u32> = FrameOutputs::new(87381);
    assert_eq!(o.aspect, 87381);
    assert!(o.canvas.is_empty() && o.set_texture.is_empty() && o.draw_texture.is_empty());
    assert!(o.glyphs.is_empty() && o.sounds.is_empty());
}

#[test]
fn new_inputs_are_empty() {
    let f = FrameInputs::new(2 * UNIT, 77);
    assert_eq!(f.screen_rect, Rect { x: 0, y: 0, w: 2 * UNIT, h: UNIT });
    assert_eq!((f.lmb, f.rmb, f.mmb), (KeyStatus::Released, KeyStatus::Released, KeyStatus::Released));
    assert_eq!((f.t, f.dt, f.frame, f.seed, f.scroll_delta), (0, 0, 0, 77, 0));
    let c = f.snapshot();
    assert_eq!(c.seed, 77);
}
