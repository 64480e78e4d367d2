//! Input-event classification.
//!
//! The windowing layer hands the context raw events; the pointer events among
//! them are queued for the next frame, and everything else is silently
//! dropped as out of scope. The queued batch is scanned per frame for press
//! and release events.

use vstd::prelude::*;

verus! {

/// The mouse button a press or release reports. The interaction state
/// machine does not distinguish buttons; the value is carried through for
/// draw routines and hosts that do.
#[derive(Clone, Copy, Debug, PartialEq, Eq, Structural)]
pub enum MouseButton {
    Left,
    Right,
    Middle,
    Unknown,
}

/// A raw event as the windowing layer reports it: pointer motion, a button
/// press or release, or anything else (keyboard, resize, ...), which the
/// classifier ignores.
#[derive(Clone, Copy, Debug, PartialEq, Eq, Structural)]
pub enum InputEvent {
    MouseMove { x: i32, y: i32 },
    MousePress(MouseButton),
    MouseRelease(MouseButton),
    Other,
}

/// A classified pointer event, produced once per raw pointer event and
/// consumed read-only by the interaction state machine.
#[derive(Clone, Copy, Debug, PartialEq, Eq, Structural)]
pub enum PointerEvent {
    Move(i32, i32),
    Press(MouseButton),
    Release(MouseButton),
}

/// Some event of the batch is a button press.
pub open spec fn has_press(s: Seq<PointerEvent>) -> bool {
    exists|i: int| 0 <= i < s.len() && (#[trigger] s[i]) is Press
}

/// Some event of the batch is a button release.
pub open spec fn has_release(s: Seq<PointerEvent>) -> bool {
    exists|i: int| 0 <= i < s.len() && (#[trigger] s[i]) is Release
}

/// Scans the active batch for a press event.
pub(crate) fn contains_pressed(events: &Vec<PointerEvent>) -> (r: bool)
    ensures
        r == has_press(events@),
{
    let mut k: usize = 0;
    while k < events.len()
        invariant
            0 <= k <= events@.len(),
            forall|i: int| 0 <= i < k ==> !((#[trigger] events@[i]) is Press),
        decreases events@.len() - k,
    {
        match events[k] {
            PointerEvent::Press(_) => {
                return true;
            },
            _ => {},
        }
        k = k + 1;
    }
    false
}

/// Scans the active batch for a release event.
pub(crate) fn contains_released(events: &Vec<PointerEvent>) -> (r: bool)
    ensures
        r == has_release(events@),
{
    let mut k: usize = 0;
    while k < events.len()
        invariant
            0 <= k <= events@.len(),
            forall|i: int| 0 <= i < k ==> !((#[trigger] events@[i]) is Release),
        decreases events@.len() - k,
    {
        match events[k] {
            PointerEvent::Release(_) => {
                return true;
            },
            _ => {},
        }
        k = k + 1;
    }
    false
}

} // verus!
