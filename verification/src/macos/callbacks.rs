//! What the macOS view does with the answers it gets in native callbacks.

use vstd::prelude::*;

use crate::event::{DropEffect, EventStatus};

verus! {

/// The drag operations that the view reports to AppKit.
#[derive(Clone, Copy, Debug, PartialEq, Eq, Structural)]
pub enum DragOperation {
    NoOperation,
    Copy,
    Move,
    Link,
    Generic,
}

/// The drag operation that answers a drag entering or moving over the view.
pub fn drag_operation(status: EventStatus) -> (op: DragOperation)
    ensures
        op == match status {
            EventStatus::AcceptDrop(DropEffect::Copy) => DragOperation::Copy,
            EventStatus::AcceptDrop(DropEffect::Move) => DragOperation::Move,
            EventStatus::AcceptDrop(DropEffect::Link) => DragOperation::Link,
            EventStatus::AcceptDrop(DropEffect::Scroll) => DragOperation::Generic,
            _ => DragOperation::NoOperation,
        },
{
    match status {
        EventStatus::AcceptDrop(DropEffect::Copy) => DragOperation::Copy,
        EventStatus::AcceptDrop(DropEffect::Move) => DragOperation::Move,
        EventStatus::AcceptDrop(DropEffect::Link) => DragOperation::Link,
        EventStatus::AcceptDrop(DropEffect::Scroll) => DragOperation::Generic,
        _ => DragOperation::NoOperation,
    }
}

/// A drop is performed when the handler accepts it.
pub fn drop_performed(status: EventStatus) -> (r: bool)
    ensures
        r == (status is AcceptDrop),
{
    matches!(status, EventStatus::AcceptDrop(_))
}

/// A key event that the handler ignores goes on to the view's superclass.
pub fn key_event_goes_to_superclass(status: EventStatus) -> (r: bool)
    ensures
        r == (status == EventStatus::Ignored),
{
    matches!(status, EventStatus::Ignored)
}

/// A change of keyboard focus.
#[derive(Clone, Copy, Debug, PartialEq, Eq, Structural)]
pub enum FocusChange {
    Focused,
    Unfocused,
}

/// The focus event of the view becoming (or ceasing to be) the first
/// responder: it counts only when its window is the key window.
pub fn first_responder_change(window_is_key: bool, becoming: bool) -> (r: Option<FocusChange>)
    ensures
        r == (if !window_is_key {
            None
        } else if becoming {
            Some(FocusChange::Focused)
        } else {
            Some(FocusChange::Unfocused)
        }),
{
    if !window_is_key {
        None
    } else if becoming {
        Some(FocusChange::Focused)
    } else {
        Some(FocusChange::Unfocused)
    }
}

/// What the view knows when a window becomes key.
#[derive(Clone, Copy, Debug, PartialEq, Eq, Structural)]
pub struct KeyWindowNotice {
    /// The view is in a window, and that window has a first responder.
    pub window_has_first_responder: bool,
    /// The notice is about the view's own window.
    pub about_own_window: bool,
    /// The first responder of the window is the view.
    pub first_responder_is_view: bool,
    /// The view's window is the key window.
    pub is_key_window: bool,
}

/// The focus event of a key-window notice. Only a notice about the view's
/// own window, whose first responder is the view, counts; otherwise the
/// first-responder callbacks of the view report focus.
pub fn key_window_focus_change(notice: KeyWindowNotice) -> (r: Option<FocusChange>)
    ensures
        r == (if notice.window_has_first_responder && notice.about_own_window
            && notice.first_responder_is_view {
            Some(if notice.is_key_window { FocusChange::Focused } else { FocusChange::Unfocused })
        } else {
            None
        }),
{
    if !notice.window_has_first_responder {
        return None;
    }
    if notice.about_own_window && notice.first_responder_is_view {
        Some(if notice.is_key_window { FocusChange::Focused } else { FocusChange::Unfocused })
    } else {
        None
    }
}

/// What happens to the view's mouse tracking area when it moves.
#[derive(Clone, Copy, Debug, PartialEq, Eq, Structural)]
pub enum TrackingAreaChange {
    /// Add a tracking area over the view.
    Add,
    /// Remove the first tracking area.
    RemoveFirst,
    Keep,
}

/// A view that moves into a window gets a tracking area if it has none; a
/// view that leaves its window loses its first one.
pub fn tracking_area_change(into_window: bool, tracking_area_count: usize) -> (r: TrackingAreaChange)
    ensures
        r == (if into_window {
            if tracking_area_count == 0 { TrackingAreaChange::Add } else { TrackingAreaChange::Keep }
        } else {
            if tracking_area_count != 0 { TrackingAreaChange::RemoveFirst } else { TrackingAreaChange::Keep }
        }),
{
    if into_window {
        if tracking_area_count == 0 {
            TrackingAreaChange::Add
        } else {
            TrackingAreaChange::Keep
        }
    } else if tracking_area_count != 0 {
        TrackingAreaChange::RemoveFirst
    } else {
        TrackingAreaChange::Keep
    }
}

/// A change of backing properties reports a resize only when the size in
/// physical pixels changed, as on the other platforms.
pub fn backing_change_resizes(old_size: (u32, u32), new_size: (u32, u32)) -> (r: bool)
    ensures
        r == (old_size != new_size),
{
    !(old_size.0 == new_size.0 && old_size.1 == new_size.1)
}

} // verus!
