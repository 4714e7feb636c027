use baseview::clipboard::{clipboard_selection, ClipboardSelection};
use baseview::event::{DropEffect, EventStatus, MouseCursor};
use baseview::gl::config::{GlConfig, GlError, Profile};
use baseview::gl::macos::{context_attributes, pixel_format_attributes, profile_version};
use baseview::macos::callbacks::{
    backing_change_resizes, drag_operation, drop_performed, first_responder_change,
    key_event_goes_to_superclass, key_window_focus_change, tracking_area_change, DragOperation,
    FocusChange, KeyWindowNotice, TrackingAreaChange,
};
use baseview::macos::cursor::{
    cursor_is_visible, cursor_to_nscursor, resolve_undocumented_cursor, NativeCursor, ResizeDirections, ResizePosition,
    SystemCursor, UndocumentedCursor, WebKitCursor,
};

fn config(version: (u8, u8), profile: Profile) -> GlConfig {
    GlConfig {
        version,
        profile,
        red_bits: 8,
        blue_bits: 8,
        green_bits: 8,
        alpha_bits: 8,
        depth_bits: 24,
        stencil_bits: 8,
        samples: None,
        srgb: true,
        double_buffer: true,
        vsync: false,
    }
}

#[test]
fn gl_profile_versions() {
    assert_eq!(profile_version(&config((3, 2), Profile::Core)), Ok(0x3200));
    assert_eq!(profile_version(&config((4, 1), Profile::Core)), Ok(0x4100));
    assert_eq!(profile_version(&config((3, 3), Profile::Core)), Ok(0x4100));
    assert_eq!(profile_version(&config((2, 1), Profile::Compatibility)), Ok(0x1000));
    assert_eq!(profile_version(&config((3, 1), Profile::Compatibility)), Ok(0x1000));
    assert_eq!(profile_version(&config((3, 1), Profile::Core)), Err(GlError::VersionNotSupported));
    assert_eq!(
        profile_version(&config((3, 2), Profile::Compatibility)),
        Err(GlError::VersionNotSupported)
    );
    assert_eq!(
        profile_version(&config((4, 6), Profile::Compatibility)),
        Err(GlError::VersionNotSupported)
    );
}

#[test]
fn gl_pixel_format_attributes() {
    assert_eq!(
        pixel_format_attributes(&config((3, 2), Profile::Core)),
        Ok(vec![99, 0x3200, 8, 24, 11, 8, 12, 24, 13, 8, 73, 5, 0])
    );
    let mut c = config((4, 1), Profile::Core);
    c.samples = Some(4);
    c.double_buffer = false;
    c.red_bits = 5;
    c.green_bits = 6;
    c.blue_bits = 5;
    assert_eq!(
        pixel_format_attributes(&c),
        Ok(vec![99, 0x4100, 8, 16, 11, 8, 12, 24, 13, 8, 73, 59, 55, 1, 56, 4, 0])
    );
    assert_eq!(
        pixel_format_attributes(&config((1, 0), Profile::Core)),
        Err(GlError::VersionNotSupported)
    );
}

#[test]
fn gl_context_needs_an_appkit_parent() {
    assert_eq!(
        context_attributes(false, &config((1, 0), Profile::Core)),
        Err(GlError::InvalidWindowHandle)
    );
    assert_eq!(
        context_attributes(true, &config((1, 0), Profile::Core)),
        Err(GlError::VersionNotSupported)
    );
    assert!(context_attributes(true, &config((3, 2), Profile::Core)).is_ok());
}

#[test]
fn cursors() {
    assert_eq!(cursor_to_nscursor(MouseCursor::Default), NativeCursor::System(SystemCursor::Arrow));
    assert_eq!(cursor_to_nscursor(MouseCursor::Hidden), NativeCursor::System(SystemCursor::Arrow));
    assert_eq!(cursor_to_nscursor(MouseCursor::Ptr), NativeCursor::System(SystemCursor::PointingHand));
    assert_eq!(
        cursor_to_nscursor(MouseCursor::Help),
        NativeCursor::Undocumented(UndocumentedCursor::Help)
    );
    assert_eq!(
        cursor_to_nscursor(MouseCursor::PtrWorking),
        NativeCursor::Undocumented(UndocumentedCursor::BusyButClickable)
    );
    assert_eq!(cursor_to_nscursor(MouseCursor::AllScroll), NativeCursor::WebKit(WebKitCursor::Move));
    assert_eq!(cursor_to_nscursor(MouseCursor::Cell), NativeCursor::WebKit(WebKitCursor::Cell));
    assert_eq!(
        cursor_to_nscursor(MouseCursor::NeResize),
        NativeCursor::FrameResize(ResizePosition::TopRight, ResizeDirections::Outward)
    );
    assert_eq!(
        cursor_to_nscursor(MouseCursor::NwseResize),
        NativeCursor::FrameResize(ResizePosition::TopLeft, ResizeDirections::All)
    );
    assert_eq!(cursor_to_nscursor(MouseCursor::ColResize), NativeCursor::System(SystemCursor::ColumnResize));
    assert!(!cursor_is_visible(MouseCursor::Hidden));
    assert!(cursor_is_visible(MouseCursor::Default));
    assert!(cursor_is_visible(MouseCursor::Text));
}

#[test]
fn drag_answers() {
    assert_eq!(drag_operation(EventStatus::AcceptDrop(DropEffect::Copy)), DragOperation::Copy);
    assert_eq!(drag_operation(EventStatus::AcceptDrop(DropEffect::Move)), DragOperation::Move);
    assert_eq!(drag_operation(EventStatus::AcceptDrop(DropEffect::Link)), DragOperation::Link);
    assert_eq!(drag_operation(EventStatus::AcceptDrop(DropEffect::Scroll)), DragOperation::Generic);
    assert_eq!(drag_operation(EventStatus::Captured), DragOperation::NoOperation);
    assert_eq!(drag_operation(EventStatus::Ignored), DragOperation::NoOperation);
    assert!(drop_performed(EventStatus::AcceptDrop(DropEffect::Link)));
    assert!(!drop_performed(EventStatus::Captured));
    assert!(key_event_goes_to_superclass(EventStatus::Ignored));
    assert!(!key_event_goes_to_superclass(EventStatus::Captured));
}

#[test]
fn focus_changes() {
    assert_eq!(first_responder_change(true, true), Some(FocusChange::Focused));
    assert_eq!(first_responder_change(true, false), Some(FocusChange::Unfocused));
    assert_eq!(first_responder_change(false, true), None);
    let notice = KeyWindowNotice {
        window_has_first_responder: true,
        about_own_window: true,
        first_responder_is_view: true,
        is_key_window: true,
    };
    assert_eq!(key_window_focus_change(notice), Some(FocusChange::Focused));
    assert_eq!(
        key_window_focus_change(KeyWindowNotice { is_key_window: false, ..notice }),
        Some(FocusChange::Unfocused)
    );
    assert_eq!(key_window_focus_change(KeyWindowNotice { about_own_window: false, ..notice }), None);
    assert_eq!(
        key_window_focus_change(KeyWindowNotice { first_responder_is_view: false, ..notice }),
        None
    );
    assert_eq!(
        key_window_focus_change(KeyWindowNotice { window_has_first_responder: false, ..notice }),
        None
    );
}

#[test]
fn tracking_areas_and_resizes() {
    assert_eq!(tracking_area_change(true, 0), TrackingAreaChange::Add);
    assert_eq!(tracking_area_change(true, 1), TrackingAreaChange::Keep);
    assert_eq!(tracking_area_change(false, 2), TrackingAreaChange::RemoveFirst);
    assert_eq!(tracking_area_change(false, 0), TrackingAreaChange::Keep);
    assert!(!backing_change_resizes((800, 600), (800, 600)));
    assert!(backing_change_resizes((800, 600), (1600, 1200)));
    assert!(backing_change_resizes((800, 600), (800, 601)));
}

#[test]
fn clipboard_selections() {
    assert_eq!(clipboard_selection(true), ClipboardSelection::Primary);
    assert_eq!(clipboard_selection(false), ClipboardSelection::Clipboard);
}

#[test]
fn resize_cursors_are_distinct() {
    let resize = [
        MouseCursor::EResize,
        MouseCursor::NResize,
        MouseCursor::NeResize,
        MouseCursor::NwResize,
        MouseCursor::SResize,
        MouseCursor::SeResize,
        MouseCursor::SwResize,
        MouseCursor::WResize,
        MouseCursor::EwResize,
        MouseCursor::NsResize,
        MouseCursor::NeswResize,
        MouseCursor::NwseResize,
    ];
    for (i, a) in resize.iter().enumerate() {
        for b in &resize[i + 1..] {
            assert_ne!(cursor_to_nscursor(*a), cursor_to_nscursor(*b));
        }
    }
}

#[test]
fn gl_checks_come_before_the_colour_sum() {
    let mut c = config((3, 2), Profile::Core);
    c.red_bits = 200;
    c.green_bits = 200;
    c.blue_bits = 200;
    assert_eq!(context_attributes(false, &c), Err(GlError::InvalidWindowHandle));
    c.profile = Profile::Compatibility;
    assert_eq!(context_attributes(true, &c), Err(GlError::VersionNotSupported));
    assert_eq!(pixel_format_attributes(&c), Err(GlError::VersionNotSupported));
}

#[test]
fn undocumented_cursors_fall_back_to_the_arrow() {
    assert_eq!(
        resolve_undocumented_cursor(UndocumentedCursor::Help, true),
        NativeCursor::Undocumented(UndocumentedCursor::Help)
    );
    assert_eq!(
        resolve_undocumented_cursor(UndocumentedCursor::BusyButClickable, false),
        NativeCursor::System(SystemCursor::Arrow)
    );
}
