use vstd::prelude::*;

verus! {

/// A player command read from the input devices.
#[derive(Debug, Copy, Clone, PartialEq, Eq, Structural)]
pub enum Input {
    Forward,
    Backward,
    StrafeLeft,
    StrafeRight,
    Rotate(i32),
    Action,
    ToggleFullscreen,
    ShowFps,
    Shoot,
    Quit,
}

} // verus!
