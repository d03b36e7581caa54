use vstd::prelude::*;

verus! {

/// Four-valued status of a key-like input: held steadily, pressed during the
/// last accumulation period, released during it, or not held.
#[derive(Clone, Copy, Debug, PartialEq, Eq, Structural)]
pub enum KeyStatus {
    Pressed,
    JustPressed,
    JustReleased,
    Released,
}

/// The status after a frame boundary: transient states settle into steady ones.
pub open spec fn collapsed(s: KeyStatus) -> KeyStatus {
    match s {
        KeyStatus::JustPressed | KeyStatus::Pressed => KeyStatus::Pressed,
        KeyStatus::JustReleased | KeyStatus::Released => KeyStatus::Released,
    }
}

/// The status set by a button event inside an accumulation period.
pub open spec fn status_after_event(pressed: bool) -> KeyStatus {
    if pressed {
        KeyStatus::JustPressed
    } else {
        KeyStatus::JustReleased
    }
}

impl KeyStatus {
    /// Settles `JustPressed` into `Pressed` and `JustReleased` into `Released`.
    pub fn collapse(self) -> (r: KeyStatus)
        ensures
            r == collapsed(self),
    {
        match self {
            KeyStatus::JustPressed | KeyStatus::Pressed => KeyStatus::Pressed,
            KeyStatus::JustReleased | KeyStatus::Released => KeyStatus::Released,
        }
    }

    /// The status that a press (`true`) or release (`false`) event sets.
    pub fn from_event(pressed: bool) -> (r: KeyStatus)
        ensures
            r == status_after_event(pressed),
    {
        if pressed {
            KeyStatus::JustPressed
        } else {
            KeyStatus::JustReleased
        }
    }

    /// True while the input is down, whether newly or steadily.
    pub fn is_down(self) -> (r: bool)
        ensures
            r == (self == KeyStatus::Pressed || self == KeyStatus::JustPressed),
    {
        match self {
            KeyStatus::Pressed | KeyStatus::JustPressed => true,
            _ => false,
        }
    }
}

} // verus!
