use vstd::prelude::*;

verus! {

/// The keys the viewer reacts to; every other key is `Other`.
#[derive(Clone, Copy, Debug, PartialEq, Eq, Structural)]
pub enum Key {
    Q,
    W,
    A,
    S,
    D,
    Space,
    LeftShift,
    ArrowUp,
    ArrowDown,
    ArrowLeft,
    ArrowRight,
    Other,
}

/// Whether mouse button and cursor events are written to the debug log.
pub fn log_mouse_event() -> (r: bool)
    ensures
        r == false,
{
    false
}

/// Whether keyboard events are written to the debug log.
pub fn log_key_event() -> (r: bool)
    ensures
        r == true,
{
    true
}

} // verus!
