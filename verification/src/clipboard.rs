//! Which system clipboard copying and pasting use.

use vstd::prelude::*;

verus! {

/// Which system clipboard to use on Linux: the clipboard proper, or the
/// primary selection (the text selected last).
#[derive(Clone, Copy, Debug, PartialEq, Eq, Structural)]
pub enum ClipboardSelection {
    Clipboard,
    Primary,
}

/// The selection that copy and paste use: the primary selection when
/// `primary` is asked for, the clipboard otherwise.
pub fn clipboard_selection(primary: bool) -> (s: ClipboardSelection)
    ensures
        s == (if primary { ClipboardSelection::Primary } else { ClipboardSelection::Clipboard }),
{
    if primary {
        ClipboardSelection::Primary
    } else {
        ClipboardSelection::Clipboard
    }
}

} // verus!
