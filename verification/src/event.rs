//! What a window handler answers to an event, and the mouse cursors a
//! window can show.

use vstd::prelude::*;

verus! {

/// What a drop onto the window would do.
#[derive(Clone, Copy, Debug, PartialEq, Eq, Structural)]
pub enum DropEffect {
    Copy,
    Move,
    Link,
    Scroll,
}

/// The answer of a window handler to an event.
#[derive(Clone, Copy, Debug, PartialEq, Eq, Structural)]
pub enum EventStatus {
    /// The event was handled.
    Captured,
    /// The event was not handled; the host may handle it.
    Ignored,
    /// A drag over the window would be accepted with this effect.
    AcceptDrop(DropEffect),
}

/// The mouse cursors that a window can show.
#[derive(Clone, Copy, Debug, PartialEq, Eq, Structural)]
pub enum MouseCursor {
    Default,
    Hand,
    HandGrabbing,
    Help,
    Hidden,
    Text,
    VerticalText,
    Working,
    PtrWorking,
    NotAllowed,
    PtrNotAllowed,
    ZoomIn,
    ZoomOut,
    Alias,
    Copy,
    Move,
    AllScroll,
    Cell,
    Crosshair,
    EResize,
    NResize,
    NeResize,
    NwResize,
    SResize,
    SeResize,
    SwResize,
    WResize,
    EwResize,
    NsResize,
    NeswResize,
    NwseResize,
    ColResize,
    RowResize,
    Ptr,
}

} // verus!
