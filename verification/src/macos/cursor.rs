//! Which native cursor shows each mouse cursor on macOS.

use vstd::prelude::*;

use crate::event::MouseCursor;

verus! {

/// Cursors that `NSCursor` offers by name.
#[derive(Clone, Copy, Debug, PartialEq, Eq, Structural)]
pub enum SystemCursor {
    Arrow,
    Crosshair,
    PointingHand,
    OpenHand,
    ClosedHand,
    IBeam,
    IBeamForVerticalLayout,
    OperationNotAllowed,
    ZoomIn,
    ZoomOut,
    DragLink,
    DragCopy,
    ColumnResize,
    RowResize,
}

/// Cursors that `NSCursor` answers to without documenting them; where the
/// running system does not have one, the arrow shows instead.
#[derive(Clone, Copy, Debug, PartialEq, Eq, Structural)]
pub enum UndocumentedCursor {
    /// `_helpCursor`
    Help,
    /// `busyButClickableCursor`
    BusyButClickable,
}

/// Cursors loaded from the resources of WebKit, which fit the style of
/// the native cursors.
#[derive(Clone, Copy, Debug, PartialEq, Eq, Structural)]
pub enum WebKitCursor {
    Move,
    Cell,
}

/// The edge or corner of a frame that a resize cursor stands at.
#[derive(Clone, Copy, Debug, PartialEq, Eq, Structural)]
pub enum ResizePosition {
    Top,
    Bottom,
    Left,
    Right,
    TopLeft,
    TopRight,
    BottomLeft,
    BottomRight,
}

/// The ways a resize cursor points.
#[derive(Clone, Copy, Debug, PartialEq, Eq, Structural)]
pub enum ResizeDirections {
    /// Only outward, away from the frame.
    Outward,
    /// Both inward and outward.
    All,
}

/// A native cursor.
#[derive(Clone, Copy, Debug, PartialEq, Eq, Structural)]
pub enum NativeCursor {
    System(SystemCursor),
    Undocumented(UndocumentedCursor),
    WebKit(WebKitCursor),
    FrameResize(ResizePosition, ResizeDirections),
}

/// The frame-resize cursor of each resize cursor.
pub open spec fn resize_cursor(c: MouseCursor) -> Option<(ResizePosition, ResizeDirections)> {
    match c {
        MouseCursor::EResize => Some((ResizePosition::Right, ResizeDirections::Outward)),
        MouseCursor::NResize => Some((ResizePosition::Top, ResizeDirections::Outward)),
        MouseCursor::NeResize => Some((ResizePosition::TopRight, ResizeDirections::Outward)),
        MouseCursor::NwResize => Some((ResizePosition::TopLeft, ResizeDirections::Outward)),
        MouseCursor::SResize => Some((ResizePosition::Bottom, ResizeDirections::Outward)),
        MouseCursor::SeResize => Some((ResizePosition::BottomRight, ResizeDirections::Outward)),
        MouseCursor::SwResize => Some((ResizePosition::BottomLeft, ResizeDirections::Outward)),
        MouseCursor::WResize => Some((ResizePosition::Left, ResizeDirections::Outward)),
        MouseCursor::EwResize => Some((ResizePosition::Right, ResizeDirections::All)),
        MouseCursor::NsResize => Some((ResizePosition::Top, ResizeDirections::All)),
        MouseCursor::NwseResize => Some((ResizePosition::TopLeft, ResizeDirections::All)),
        MouseCursor::NeswResize => Some((ResizePosition::TopRight, ResizeDirections::All)),
        _ => None,
    }
}

/// The native cursor of every other mouse cursor.
pub open spec fn other_cursor(c: MouseCursor) -> NativeCursor {
    match c {
        MouseCursor::Crosshair => NativeCursor::System(SystemCursor::Crosshair),
        MouseCursor::Ptr => NativeCursor::System(SystemCursor::PointingHand),
        MouseCursor::Hand => NativeCursor::System(SystemCursor::OpenHand),
        MouseCursor::HandGrabbing => NativeCursor::System(SystemCursor::ClosedHand),
        MouseCursor::Help => NativeCursor::Undocumented(UndocumentedCursor::Help),
        MouseCursor::Text => NativeCursor::System(SystemCursor::IBeam),
        MouseCursor::VerticalText => NativeCursor::System(SystemCursor::IBeamForVerticalLayout),
        MouseCursor::Working => NativeCursor::Undocumented(UndocumentedCursor::BusyButClickable),
        MouseCursor::PtrWorking => NativeCursor::Undocumented(UndocumentedCursor::BusyButClickable),
        MouseCursor::NotAllowed => NativeCursor::System(SystemCursor::OperationNotAllowed),
        MouseCursor::PtrNotAllowed => NativeCursor::System(SystemCursor::OperationNotAllowed),
        MouseCursor::ZoomIn => NativeCursor::System(SystemCursor::ZoomIn),
        MouseCursor::ZoomOut => NativeCursor::System(SystemCursor::ZoomOut),
        MouseCursor::Alias => NativeCursor::System(SystemCursor::DragLink),
        MouseCursor::Copy => NativeCursor::System(SystemCursor::DragCopy),
        MouseCursor::Move => NativeCursor::WebKit(WebKitCursor::Move),
        MouseCursor::AllScroll => NativeCursor::WebKit(WebKitCursor::Move),
        MouseCursor::Cell => NativeCursor::WebKit(WebKitCursor::Cell),
        MouseCursor::ColResize => NativeCursor::System(SystemCursor::ColumnResize),
        MouseCursor::RowResize => NativeCursor::System(SystemCursor::RowResize),
        _ => NativeCursor::System(SystemCursor::Arrow),
    }
}

pub open spec fn spec_cursor_to_nscursor(c: MouseCursor) -> NativeCursor {
    match resize_cursor(c) {
        Some((position, directions)) => NativeCursor::FrameResize(position, directions),
        None => other_cursor(c),
    }
}

fn default_cursor() -> (n: NativeCursor)
    ensures
        n == NativeCursor::System(SystemCursor::Arrow),
{
    NativeCursor::System(SystemCursor::Arrow)
}

/// The native cursor that shows a mouse cursor. The default and the hidden
/// cursor both use the arrow (the hidden one is then hidden).
pub fn cursor_to_nscursor(mouse_cursor: MouseCursor) -> (n: NativeCursor)
    ensures
        n == spec_cursor_to_nscursor(mouse_cursor),
{
    match mouse_cursor {
        MouseCursor::Crosshair => NativeCursor::System(SystemCursor::Crosshair),
        MouseCursor::Default => default_cursor(),
        MouseCursor::Ptr => NativeCursor::System(SystemCursor::PointingHand),
        MouseCursor::Hand => NativeCursor::System(SystemCursor::OpenHand),
        MouseCursor::HandGrabbing => NativeCursor::System(SystemCursor::ClosedHand),
        MouseCursor::Help => NativeCursor::Undocumented(UndocumentedCursor::Help),
        MouseCursor::Hidden => default_cursor(),
        MouseCursor::Text => NativeCursor::System(SystemCursor::IBeam),
        MouseCursor::VerticalText => NativeCursor::System(SystemCursor::IBeamForVerticalLayout),
        MouseCursor::Working => NativeCursor::Undocumented(UndocumentedCursor::BusyButClickable),
        MouseCursor::PtrWorking => NativeCursor::Undocumented(UndocumentedCursor::BusyButClickable),
        MouseCursor::NotAllowed => NativeCursor::System(SystemCursor::OperationNotAllowed),
        MouseCursor::PtrNotAllowed => NativeCursor::System(SystemCursor::OperationNotAllowed),
        MouseCursor::ZoomIn => NativeCursor::System(SystemCursor::ZoomIn),
        MouseCursor::ZoomOut => NativeCursor::System(SystemCursor::ZoomOut),
        MouseCursor::Alias => NativeCursor::System(SystemCursor::DragLink),
        MouseCursor::Copy => NativeCursor::System(SystemCursor::DragCopy),
        MouseCursor::Move => NativeCursor::WebKit(WebKitCursor::Move),
        MouseCursor::AllScroll => NativeCursor::WebKit(WebKitCursor::Move),
        MouseCursor::Cell => NativeCursor::WebKit(WebKitCursor::Cell),
        MouseCursor::EResize => NativeCursor::FrameResize(ResizePosition::Right, ResizeDirections::Outward),
        MouseCursor::NResize => NativeCursor::FrameResize(ResizePosition::Top, ResizeDirections::Outward),
        MouseCursor::NeResize => NativeCursor::FrameResize(ResizePosition::TopRight, ResizeDirections::Outward),
        MouseCursor::NwResize => NativeCursor::FrameResize(ResizePosition::TopLeft, ResizeDirections::Outward),
        MouseCursor::SResize => NativeCursor::FrameResize(ResizePosition::Bottom, ResizeDirections::Outward),
        MouseCursor::SeResize => NativeCursor::FrameResize(ResizePosition::BottomRight, ResizeDirections::Outward),
        MouseCursor::SwResize => NativeCursor::FrameResize(ResizePosition::BottomLeft, ResizeDirections::Outward),
        MouseCursor::WResize => NativeCursor::FrameResize(ResizePosition::Left, ResizeDirections::Outward),
        MouseCursor::EwResize => NativeCursor::FrameResize(ResizePosition::Right, ResizeDirections::All),
        MouseCursor::NsResize => NativeCursor::FrameResize(ResizePosition::Top, ResizeDirections::All),
        MouseCursor::NwseResize => NativeCursor::FrameResize(ResizePosition::TopLeft, ResizeDirections::All),
        MouseCursor::NeswResize => NativeCursor::FrameResize(ResizePosition::TopRight, ResizeDirections::All),
        MouseCursor::ColResize => NativeCursor::System(SystemCursor::ColumnResize),
        MouseCursor::RowResize => NativeCursor::System(SystemCursor::RowResize),
    }
}

/// The cursor that shows for an undocumented cursor: that cursor where the
/// running system answers to it, the default arrow otherwise.
pub fn resolve_undocumented_cursor(cursor: UndocumentedCursor, available: bool) -> (n: NativeCursor)
    ensures
        n == (if available {
            NativeCursor::Undocumented(cursor)
        } else {
            NativeCursor::System(SystemCursor::Arrow)
        }),
{
    if available {
        NativeCursor::Undocumented(cursor)
    } else {
        default_cursor()
    }
}

/// Whether the cursor shows after it is set: every cursor but the hidden one.
pub fn cursor_is_visible(mouse_cursor: MouseCursor) -> (visible: bool)
    ensures
        visible == (mouse_cursor != MouseCursor::Hidden),
{
    !matches!(mouse_cursor, MouseCursor::Hidden)
}

/// The hidden cursor is the default arrow, hidden; it is the only cursor
/// that does not show.
pub proof fn lemma_hidden_cursor_is_hidden_arrow(c: MouseCursor)
    ensures
        c == MouseCursor::Hidden ==> spec_cursor_to_nscursor(c) == spec_cursor_to_nscursor(
            MouseCursor::Default,
        ),
        spec_cursor_to_nscursor(MouseCursor::Default) == NativeCursor::System(SystemCursor::Arrow),
{
}

/// Resize cursors for one edge or corner point outward from it, and the
/// two-way ones point both ways; each is drawn at a different place or way.
pub proof fn lemma_resize_cursors_distinct(a: MouseCursor, b: MouseCursor)
    requires
        resize_cursor(a) is Some,
        resize_cursor(b) is Some,
        a != b,
    ensures
        spec_cursor_to_nscursor(a) != spec_cursor_to_nscursor(b),
{
}

/// Mouse cursors that macOS shows with one native cursor: the default and
/// the hidden cursor (the arrow), the two busy cursors, the two
/// not-allowed cursors, and the two move cursors.
pub open spec fn shares_native_cursor(a: MouseCursor, b: MouseCursor) -> bool {
    let pair = |x: MouseCursor, y: MouseCursor| (a == x && b == y) || (a == y && b == x);
    ||| a == b
    ||| pair(MouseCursor::Default, MouseCursor::Hidden)
    ||| pair(MouseCursor::Working, MouseCursor::PtrWorking)
    ||| pair(MouseCursor::NotAllowed, MouseCursor::PtrNotAllowed)
    ||| pair(MouseCursor::Move, MouseCursor::AllScroll)
}

/// Only the default and the hidden cursor show the arrow.
pub proof fn lemma_only_default_and_hidden_show_arrow(c: MouseCursor)
    ensures
        (spec_cursor_to_nscursor(c) == NativeCursor::System(SystemCursor::Arrow)) <==> (c
            == MouseCursor::Default || c == MouseCursor::Hidden),
{
}

/// Two mouse cursors show the same native cursor exactly when macOS has one
/// cursor for both; every other mouse cursor shows a cursor of its own.
pub proof fn lemma_native_cursors_distinct(a: MouseCursor, b: MouseCursor)
    ensures
        (spec_cursor_to_nscursor(a) == spec_cursor_to_nscursor(b)) <==> shares_native_cursor(a, b),
{
}

/// The text cursors are the I-beams: the horizontal one for text, the
/// vertical one for vertical text, and no other cursor shows an I-beam.
pub proof fn lemma_text_cursors_are_ibeams(c: MouseCursor)
    ensures
        (spec_cursor_to_nscursor(c) == NativeCursor::System(SystemCursor::IBeam)) <==> c
            == MouseCursor::Text,
        (spec_cursor_to_nscursor(c) == NativeCursor::System(SystemCursor::IBeamForVerticalLayout))
            <==> c == MouseCursor::VerticalText,
{
}

} // verus!
