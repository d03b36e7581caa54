use vstd::prelude::*;

use crate::application::Application;
use crate::event::{InputEvent, MouseButton};
use crate::inputs::FrameInputs;
use crate::seed::seed_after;
use crate::status::{status_after_event, KeyStatus};

verus! {

/// The status of button `b` in `f`.
pub open spec fn button_status(f: FrameInputs, b: MouseButton) -> KeyStatus {
    match b {
        MouseButton::Left => f.lmb,
        MouseButton::Right => f.rmb,
        MouseButton::Middle => f.mmb,
    }
}

/// The steady status that a press (`true`) or release (`false`) settles into.
pub open spec fn steady_status(pressed: bool) -> KeyStatus {
    if pressed {
        KeyStatus::Pressed
    } else {
        KeyStatus::Released
    }
}

/// `states` runs through successive key-down events for `code` with no
/// key-up between them.
pub open spec fn key_down_run(states: Seq<Application>, code: u32) -> bool {
    forall|i: int|
        1 <= i < states.len() ==> #[trigger] states[i].key_applied(states[i - 1], code, true)
}

/// Successive key-down events for one code with no key-up between them: the
/// code is held after the first and stays held with the held set unchanged;
/// the first leaves the repeat set alone if the code was not held, and the
/// second and later ones add the code to it once, all of them leaving the
/// same repeat set.
pub proof fn lemma_repeated_key_down(states: Seq<Application>, code: u32)
    requires
        states.len() >= 2,
        key_down_run(states, code),
    ensures
        forall|i: int|
            1 <= i < states.len() ==> #[trigger] states[i].current.curr_keys@.contains(code),
        forall|i: int|
            1 <= i < states.len() ==> #[trigger] states[i].current.curr_keys@
                == states[0].current.curr_keys@.insert(code),
        !states[0].current.curr_keys@.contains(code) ==> states[1].current.repeat_keys@
            == states[0].current.repeat_keys@,
        forall|i: int|
            2 <= i < states.len() ==> #[trigger] states[i].current.repeat_keys@
                == states[1].current.repeat_keys@.insert(code),
{
    let one: int = 1;
    assert(states[one].key_applied(states[one - 1], code, true));
    assert forall|i: int| 1 <= i < states.len() implies #[trigger] states[i].current.curr_keys@
        == states[0].current.curr_keys@.insert(code) by {
        lemma_key_down_at(states, code, i);
    }
    assert forall|i: int| 2 <= i < states.len() implies #[trigger] states[i].current.repeat_keys@
        == states[1].current.repeat_keys@.insert(code) by {
        lemma_key_down_at(states, code, i);
    }
}

proof fn lemma_key_down_at(states: Seq<Application>, code: u32, i: int)
    requires
        1 <= i < states.len(),
        key_down_run(states, code),
    ensures
        states[i].current.curr_keys@ == states[0].current.curr_keys@.insert(code),
        i >= 2 ==> states[i].current.repeat_keys@ == states[1].current.repeat_keys@.insert(code),
    decreases i,
{
    assert(states[i].key_applied(states[i - 1], code, true));
    if i == 1 {
        assert(states[1].current.curr_keys@ =~= states[0].current.curr_keys@.insert(code)) by {
            if states[0].current.curr_keys@.contains(code) {
                assert(states[0].current.curr_keys@.insert(code) =~= states[0].current.curr_keys@);
            }
        }
    } else {
        lemma_key_down_at(states, code, i - 1);
        assert(states[i - 1].current.curr_keys@.contains(code));
        if i > 2 {
            assert(states[i - 1].current.repeat_keys@.insert(code)
                =~= states[1].current.repeat_keys@.insert(code));
        }
    }
}

/// `states` runs through successive frame boundaries, `snaps[i]` being the
/// inputs handed out at the boundary from `states[i]` at time `times[i]`.
pub open spec fn frame_run(states: Seq<Application>, snaps: Seq<FrameInputs>, times: Seq<u64>) -> bool {
    &&& states.len() == snaps.len() + 1
    &&& times.len() == snaps.len()
    &&& forall|i: int|
        1 <= i <= snaps.len() ==> #[trigger] states[i].frame_ended(
            states[i - 1],
            snaps[i - 1],
            times[i - 1],
        )
}

/// After a press (or release) event on a button and no further event on
/// it, the next frame reports `JustPressed` (`JustReleased`) and every frame
/// after it `Pressed` (`Released`).
pub proof fn lemma_button_sequence(
    before: Application,
    b: MouseButton,
    pressed: bool,
    states: Seq<Application>,
    snaps: Seq<FrameInputs>,
    times: Seq<u64>,
)
    requires
        snaps.len() >= 1,
        frame_run(states, snaps, times),
        states[0].button_applied(before, b, pressed),
    ensures
        button_status(snaps[0], b) == status_after_event(pressed),
        forall|i: int|
            1 <= i < snaps.len() ==> #[trigger] button_status(snaps[i], b) == steady_status(pressed),
{
    let one: int = 1;
    assert(states[one].frame_ended(states[one - 1], snaps[one - 1], times[one - 1]));
    assert forall|i: int| 1 <= i < snaps.len() implies #[trigger] button_status(snaps[i], b)
        == steady_status(pressed) by {
        lemma_button_at(before, b, pressed, states, snaps, times, i);
        let j = i + 1;
        assert(states[j].frame_ended(states[j - 1], snaps[j - 1], times[j - 1]));
    }
}

proof fn lemma_button_at(
    before: Application,
    b: MouseButton,
    pressed: bool,
    states: Seq<Application>,
    snaps: Seq<FrameInputs>,
    times: Seq<u64>,
    i: int,
)
    requires
        1 <= i <= snaps.len(),
        frame_run(states, snaps, times),
        states[0].button_applied(before, b, pressed),
    ensures
        button_status(states[i].current, b) == steady_status(pressed),
    decreases i,
{
    assert(states[i].frame_ended(states[i - 1], snaps[i - 1], times[i - 1]));
    if i > 1 {
        lemma_button_at(before, b, pressed, states, snaps, times, i - 1);
    }
}

/// `mid` runs from `mid[0]` through the events `events`.
pub open spec fn event_run(mid: Seq<Application>, events: Seq<InputEvent>) -> bool {
    &&& mid.len() == events.len() + 1
    &&& forall|i: int|
        1 <= i <= events.len() ==> #[trigger] mid[i].event_applied(mid[i - 1], events[i - 1])
}

/// Between two frame boundaries, whatever events come, the pointer delta of
/// the second frame is its pointer position minus that of the first.
pub proof fn lemma_mouse_delta(
    a: Application,
    s1: FrameInputs,
    t1: u64,
    mid: Seq<Application>,
    events: Seq<InputEvent>,
    c: Application,
    s2: FrameInputs,
    t2: u64,
)
    requires
        event_run(mid, events),
        mid[0].frame_ended(a, s1, t1),
        c.frame_ended(mid.last(), s2, t2),
    ensures
        s2.mouse_delta.x == s2.mouse_pos.x - s1.mouse_pos.x,
        s2.mouse_delta.y == s2.mouse_pos.y - s1.mouse_pos.y,
{
    lemma_pointer_kept(mid, events, s1, events.len() as int);
}

proof fn lemma_pointer_kept(mid: Seq<Application>, events: Seq<InputEvent>, s1: FrameInputs, n: int)
    requires
        0 <= n <= events.len(),
        event_run(mid, events),
        mid[0].current.mouse_pos == s1.mouse_pos,
    ensures
        mid[n].current.mouse_pos == s1.mouse_pos,
    decreases n,
{
    if n > 0 {
        lemma_pointer_kept(mid, events, s1, n - 1);
        assert(mid[n].event_applied(mid[n - 1], events[n - 1]));
    }
}

/// Over successive frame boundaries, at whatever times they come, the seed
/// after `n` of them is the starting seed mixed `n` times.
pub proof fn lemma_seed_run(states: Seq<Application>, snaps: Seq<FrameInputs>, times: Seq<u64>)
    requires
        frame_run(states, snaps, times),
    ensures
        forall|i: int|
            0 <= i < states.len() ==> #[trigger] states[i].current.seed == seed_after(
                states[0].current.seed,
                i as nat,
            ),
{
    assert forall|i: int| 0 <= i < states.len() implies #[trigger] states[i].current.seed
        == seed_after(states[0].current.seed, i as nat) by {
        lemma_seed_at(states, snaps, times, i);
    }
}

proof fn lemma_seed_at(states: Seq<Application>, snaps: Seq<FrameInputs>, times: Seq<u64>, i: int)
    requires
        0 <= i < states.len(),
        frame_run(states, snaps, times),
    ensures
        states[i].current.seed == seed_after(states[0].current.seed, i as nat),
    decreases i,
{
    if i > 0 {
        lemma_seed_at(states, snaps, times, i - 1);
        assert(states[i].frame_ended(states[i - 1], snaps[i - 1], times[i - 1]));
    }
}

} // verus!
