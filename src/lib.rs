//! Per-frame input state for an interactive loop: raw events fold into an
//! accumulation state, and each frame boundary hands out a snapshot of it.

pub mod application;
pub mod event;
pub mod geometry;
pub mod inputs;
pub mod keyset;
pub mod laws;
pub mod outputs;
pub mod seed;
pub mod status;

pub use application::Application;
pub use event::{Action, InputEvent, MouseButton, ScrollDelta};
pub use geometry::{Point, Rect, UNIT};
pub use inputs::FrameInputs;
pub use keyset::KeySet;
pub use outputs::FrameOutputs;
pub use status::KeyStatus;
