//! The window that a window handler is given on macOS.

use vstd::prelude::*;

use crate::macos::view::{ViewModel, ViewState};

verus! {

/// What the native window of a view says about focus, read when asked.
#[derive(Clone, Copy, Debug, PartialEq, Eq, Structural)]
pub struct WindowFocus {
    /// The window is the key window of the application.
    pub is_key_window: bool,
    /// The first responder of the window is the view.
    pub first_responder_is_view: bool,
}

/// A window, as the window handler sees it: the view it belongs to.
pub struct Window<'a, E> {
    view: &'a ViewState<E>,
}

impl<'a, E> Window<'a, E> {
    /// The state of the view of the window.
    pub closed spec fn state(&self) -> ViewModel<E> {
        self.view@
    }

    pub fn new(view: &'a ViewState<E>) -> (w: Self)
        ensures
            w.state() == view@,
    {
        Self { view }
    }

    /// The window has focus when it is the key window and the view is its
    /// first responder. A view that is in no window has no focus.
    pub fn has_focus(&self, window: Option<WindowFocus>) -> (r: bool)
        ensures
            r == match window {
                Some(w) => w.is_key_window && w.first_responder_is_view,
                None => false,
            },
    {
        match window {
            Some(w) => w.is_key_window && w.first_responder_is_view,
            None => false,
        }
    }

    /// Whether focusing the window makes the view the first responder of
    /// its window: it does when the view is in a window, and nothing
    /// happens otherwise.
    pub fn focus(&mut self, in_window: bool) -> (make_first_responder: bool)
        ensures
            make_first_responder == in_window,
            final(self).state() == old(self).state(),
    {
        in_window
    }

    /// The native handle of the window is available while the view is open.
    pub fn is_open(&self) -> (r: bool)
        ensures
            r == self.state().open,
    {
        self.view.is_open()
    }
}

} // verus!
