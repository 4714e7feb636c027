//! Keyboard data shared by the platform back ends: physical key codes,
//! logical key values, modifier flags and key locations.
//!
//! The names of `Code` and `NamedKey` variants are the W3C UI Events
//! `code` and `key` values, and the modifier flags use the bit layout of
//! the `keyboard-types` crate, so that a value converts to that crate's
//! types by name or by bits.

use vstd::prelude::*;

verus! {

/// Physical position of a key on the keyboard.
#[derive(Clone, Copy, Debug, PartialEq, Eq, Structural)]
pub enum Code {
    Again,
    AltLeft,
    AltRight,
    ArrowDown,
    ArrowLeft,
    ArrowRight,
    ArrowUp,
    AudioVolumeDown,
    AudioVolumeMute,
    AudioVolumeUp,
    Backquote,
    Backslash,
    Backspace,
    BracketLeft,
    BracketRight,
    BrowserBack,
    BrowserFavorites,
    BrowserForward,
    BrowserHome,
    BrowserRefresh,
    BrowserSearch,
    BrowserStop,
    CapsLock,
    Comma,
    ContextMenu,
    ControlLeft,
    ControlRight,
    Convert,
    Copy,
    Cut,
    Delete,
    Digit0,
    Digit1,
    Digit2,
    Digit3,
    Digit4,
    Digit5,
    Digit6,
    Digit7,
    Digit8,
    Digit9,
    Eject,
    End,
    Enter,
    Equal,
    Escape,
    F1,
    F10,
    F11,
    F12,
    F2,
    F3,
    F4,
    F5,
    F6,
    F7,
    F8,
    F9,
    Find,
    Help,
    Home,
    Insert,
    IntlBackslash,
    IntlRo,
    IntlYen,
    KanaMode,
    KeyA,
    KeyB,
    KeyC,
    KeyD,
    KeyE,
    KeyF,
    KeyG,
    KeyH,
    KeyI,
    KeyJ,
    KeyK,
    KeyL,
    KeyM,
    KeyN,
    KeyO,
    KeyP,
    KeyQ,
    KeyR,
    KeyS,
    KeyT,
    KeyU,
    KeyV,
    KeyW,
    KeyX,
    KeyY,
    KeyZ,
    Lang1,
    Lang2,
    LaunchApp1,
    LaunchApp2,
    LaunchMail,
    MediaPlayPause,
    MediaSelect,
    MediaStop,
    MediaTrackNext,
    MediaTrackPrevious,
    MetaLeft,
    MetaRight,
    Minus,
    NonConvert,
    NumLock,
    Numpad0,
    Numpad1,
    Numpad2,
    Numpad3,
    Numpad4,
    Numpad5,
    Numpad6,
    Numpad7,
    Numpad8,
    Numpad9,
    NumpadAdd,
    NumpadComma,
    NumpadDecimal,
    NumpadDivide,
    NumpadEnter,
    NumpadEqual,
    NumpadMultiply,
    NumpadSubtract,
    Open,
    PageDown,
    PageUp,
    Paste,
    Pause,
    Period,
    PrintScreen,
    Props,
    Quote,
    ScrollLock,
    Select,
    Semicolon,
    ShiftLeft,
    ShiftRight,
    Slash,
    Space,
    Tab,
    Undo,
    WakeUp,
    Unidentified,
}

/// A key value that is not a printed character.
#[derive(Clone, Copy, Debug, PartialEq, Eq, Structural)]
pub enum NamedKey {
    Again,
    Alt,
    ArrowDown,
    ArrowLeft,
    ArrowRight,
    ArrowUp,
    AudioVolumeDown,
    AudioVolumeMute,
    AudioVolumeUp,
    Backspace,
    BrowserBack,
    BrowserFavorites,
    BrowserForward,
    BrowserHome,
    BrowserRefresh,
    BrowserSearch,
    BrowserStop,
    CapsLock,
    Clear,
    ContextMenu,
    Control,
    Convert,
    Copy,
    Cut,
    Delete,
    Eject,
    End,
    Enter,
    Escape,
    F1,
    F10,
    F11,
    F12,
    F2,
    F3,
    F4,
    F5,
    F6,
    F7,
    F8,
    F9,
    Find,
    HangulMode,
    HanjaMode,
    Help,
    Home,
    Insert,
    KanaMode,
    LaunchApplication1,
    LaunchApplication2,
    LaunchMail,
    LaunchMediaPlayer,
    MediaPlayPause,
    MediaStop,
    MediaTrackNext,
    MediaTrackPrevious,
    Meta,
    NonConvert,
    NumLock,
    Open,
    PageDown,
    PageUp,
    Paste,
    Pause,
    PrintScreen,
    Props,
    ScrollLock,
    Select,
    Shift,
    Tab,
    Undo,
    Unidentified,
    WakeUp,
}

/// Logical value of a key press: the character it types, or a named key.
#[derive(Clone, Copy, Debug, PartialEq, Eq, Structural)]
pub enum Key {
    Character(char),
    Named(NamedKey),
}

/// Where on the keyboard a key sits, for keys that exist more than once.
#[derive(Clone, Copy, Debug, PartialEq, Eq, Structural)]
pub enum Location {
    Standard,
    Left,
    Right,
    Numpad,
}

/// Whether a key went down or came up.
#[derive(Clone, Copy, Debug, PartialEq, Eq, Structural)]
pub enum KeyState {
    Down,
    Up,
}

pub const ALT: u32 = 0x01;
pub const ALT_GRAPH: u32 = 0x2;
pub const CAPS_LOCK: u32 = 0x4;
pub const CONTROL: u32 = 0x8;
pub const FN: u32 = 0x10;
pub const FN_LOCK: u32 = 0x20;
pub const META: u32 = 0x40;
pub const NUM_LOCK: u32 = 0x80;
pub const SCROLL_LOCK: u32 = 0x100;
pub const SHIFT: u32 = 0x200;
pub const SYMBOL: u32 = 0x400;
pub const SYMBOL_LOCK: u32 = 0x800;

/// A set of pressed modifier keys, one bit per modifier.
#[derive(Clone, Copy, Debug, PartialEq, Eq, Structural)]
pub struct Modifiers {
    pub bits: u32,
}

impl Modifiers {
    /// Every flag of `flags` is set.
    pub open spec fn has(self, flags: u32) -> bool {
        self.bits & flags == flags
    }

    /// The empty set of modifiers.
    pub fn empty() -> (r: Modifiers)
        ensures
            r.bits == 0,
    {
        Modifiers { bits: 0 }
    }

    pub fn from_bits(bits: u32) -> (r: Modifiers)
        ensures
            r.bits == bits,
    {
        Modifiers { bits }
    }

    pub fn contains(&self, flags: u32) -> (r: bool)
        ensures
            r == self.has(flags),
    {
        self.bits & flags == flags
    }

    pub fn insert(&mut self, flags: u32)
        ensures
            final(self).bits == old(self).bits | flags,
    {
        self.bits = self.bits | flags;
    }

    pub fn shift(&self) -> (r: bool)
        ensures
            r == self.has(SHIFT),
    {
        self.contains(SHIFT)
    }
}

/// A key going down or coming up, with everything known about it.
#[derive(Clone, Copy, Debug, PartialEq, Eq, Structural)]
pub struct KeyboardEvent {
    pub state: KeyState,
    pub key: Key,
    pub code: Code,
    pub location: Location,
    pub modifiers: Modifiers,
    pub repeat: bool,
    pub is_composing: bool,
}

/// Modifier keys on the left-hand side of the keyboard.
pub open spec fn is_left_key(code: Code) -> bool {
    code == Code::MetaLeft || code == Code::ShiftLeft || code == Code::AltLeft || code
        == Code::ControlLeft
}

/// Modifier keys on the right-hand side of the keyboard.
pub open spec fn is_right_key(code: Code) -> bool {
    code == Code::MetaRight || code == Code::ShiftRight || code == Code::AltRight || code
        == Code::ControlRight
}

/// Keys of the numeric keypad.
pub open spec fn is_numpad_key(code: Code) -> bool {
    ||| code == Code::Numpad0
    ||| code == Code::Numpad1
    ||| code == Code::Numpad2
    ||| code == Code::Numpad3
    ||| code == Code::Numpad4
    ||| code == Code::Numpad5
    ||| code == Code::Numpad6
    ||| code == Code::Numpad7
    ||| code == Code::Numpad8
    ||| code == Code::Numpad9
    ||| code == Code::NumpadAdd
    ||| code == Code::NumpadComma
    ||| code == Code::NumpadDecimal
    ||| code == Code::NumpadDivide
    ||| code == Code::NumpadEnter
    ||| code == Code::NumpadEqual
    ||| code == Code::NumpadMultiply
    ||| code == Code::NumpadSubtract
}

pub open spec fn spec_code_to_location(code: Code) -> Location {
    if is_left_key(code) {
        Location::Left
    } else if is_right_key(code) {
        Location::Right
    } else if is_numpad_key(code) {
        Location::Numpad
    } else {
        Location::Standard
    }
}

/// Map a key code to the location of the key: left or right for the
/// modifier keys that come in pairs, numpad for the keypad, standard
/// for every other key.
pub fn code_to_location(code: Code) -> (l: Location)
    ensures
        l == spec_code_to_location(code),
{
    match code {
        Code::MetaLeft | Code::ShiftLeft | Code::AltLeft | Code::ControlLeft => Location::Left,
        Code::MetaRight | Code::ShiftRight | Code::AltRight | Code::ControlRight => Location::Right,
        Code::Numpad0
        | Code::Numpad1
        | Code::Numpad2
        | Code::Numpad3
        | Code::Numpad4
        | Code::Numpad5
        | Code::Numpad6
        | Code::Numpad7
        | Code::Numpad8
        | Code::Numpad9
        | Code::NumpadAdd
        | Code::NumpadComma
        | Code::NumpadDecimal
        | Code::NumpadDivide
        | Code::NumpadEnter
        | Code::NumpadEqual
        | Code::NumpadMultiply
        | Code::NumpadSubtract => Location::Numpad,
        _ => Location::Standard,
    }
}

} // verus!
